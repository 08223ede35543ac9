//! The diagnostic dump of one element.
//!
//! The dump has a published fixed order: `role` and `subrole` first, then
//! every other well-known attribute in a stable alphabetical order by
//! semantic name, then the element's actual discovered attribute names in
//! the service's order, excluding any whose native key was already covered
//! by the well-known table. Well-known element arrays render as the list of
//! their children's role strings, one level deep only; booleans render as a
//! plain token; attributes that fail to read are silently omitted — a read
//! failure is never a rendering failure.

use vstd::prelude::*;
use crate::accessors::spec_text_attribute;
use crate::attribute::AXAttribute;
use crate::render::{render_value, spec_render};
use crate::ui_element::{
    spec_attribute, spec_attribute_names, spec_raw_attribute, AXUIElement, NativeStore,
};
use crate::value::{spec_element_id, NativeValue, ValueKind};

verus! {

/// One line of the dump: the emitted name and the rendered value.
#[derive(Debug)]
pub struct DebugField {
    pub name: String,
    pub rendered: String,
}

/// The mathematical content of a dump: name/text pairs in order.
pub open spec fn fields_view(fs: Seq<DebugField>) -> Seq<(Seq<char>, Seq<char>)> {
    fs.map(|i: int, f: DebugField| (f.name@, f.rendered@))
}

/// Whether a native key is one of the well-known table's keys.
pub open spec fn spec_is_registry_key(name: Seq<char>) -> bool {
    ||| name == "AXRole"@
    ||| name == "AXSubrole"@
    ||| name == "AXAllowedValues"@
    ||| name == "AXChildren"@
    ||| name == "AXContents"@
    ||| name == "AXDescription"@
    ||| name == "AXElementBusy"@
    ||| name == "AXEnabled"@
    ||| name == "AXFocused"@
    ||| name == "AXFrame"@
    ||| name == "AXHelp"@
    ||| name == "AXIdentifier"@
    ||| name == "AXLabelValue"@
    ||| name == "AXMain"@
    ||| name == "AXMaxValue"@
    ||| name == "AXMinValue"@
    ||| name == "AXMinimized"@
    ||| name == "AXParent"@
    ||| name == "AXPlaceholderValue"@
    ||| name == "AXPosition"@
    ||| name == "AXRoleDescription"@
    ||| name == "AXSelectedChildren"@
    ||| name == "AXSize"@
    ||| name == "AXTitle"@
    ||| name == "AXTopLevelUIElement"@
    ||| name == "AXValue"@
    ||| name == "AXValueDescription"@
    ||| name == "AXValueIncrement"@
    ||| name == "AXVisibleChildren"@
    ||| name == "AXWindow"@
    ||| name == "AXWindows"@
}

/// Compares a discovered name with a well-known key.
fn str_matches(name: &String, lit: &str) -> (r: bool)
    ensures
        r == (name@ == lit@),
{
    let s: String = lit.to_owned();
    *name == s
}

/// Checks a discovered name against every well-known key.
pub fn is_registry_key(name: &String) -> (r: bool)
    ensures
        r == spec_is_registry_key(name@),
{
    str_matches(name, "AXRole") || str_matches(name, "AXSubrole") || str_matches(
        name,
        "AXAllowedValues",
    ) || str_matches(name, "AXChildren") || str_matches(name, "AXContents") || str_matches(
        name,
        "AXDescription",
    ) || str_matches(name, "AXElementBusy") || str_matches(name, "AXEnabled") || str_matches(
        name,
        "AXFocused",
    ) || str_matches(name, "AXFrame") || str_matches(name, "AXHelp") || str_matches(
        name,
        "AXIdentifier",
    ) || str_matches(name, "AXLabelValue") || str_matches(name, "AXMain") || str_matches(
        name,
        "AXMaxValue",
    ) || str_matches(name, "AXMinValue") || str_matches(name, "AXMinimized") || str_matches(
        name,
        "AXParent",
    ) || str_matches(name, "AXPlaceholderValue") || str_matches(name, "AXPosition")
        || str_matches(name, "AXRoleDescription") || str_matches(name, "AXSelectedChildren")
        || str_matches(name, "AXSize") || str_matches(name, "AXTitle") || str_matches(
        name,
        "AXTopLevelUIElement",
    ) || str_matches(name, "AXValue") || str_matches(name, "AXValueDescription") || str_matches(
        name,
        "AXValueIncrement",
    ) || str_matches(name, "AXVisibleChildren") || str_matches(name, "AXWindow") || str_matches(
        name,
        "AXWindows",
    )
}

/// A child's role string for the one-level-deep array rendering; an
/// unreadable role renders as empty text.
pub open spec fn spec_role_text(store: NativeStore, id: u64) -> Seq<char> {
    match spec_text_attribute(store, id, "AXRole"@) {
        Ok(s) => s,
        Err(_) => Seq::empty(),
    }
}

/// The comma-separated role strings of an array's tail.
pub open spec fn spec_roles_from(store: NativeStore, items: Seq<NativeValue>, i: int) -> Seq<char>
    decreases items.len() - i,
{
    if i < 0 || i >= items.len() {
        Seq::empty()
    } else if i == items.len() - 1 {
        spec_role_text(store, spec_element_id(items[i]))
    } else {
        spec_role_text(store, spec_element_id(items[i])) + ", "@ + spec_roles_from(
            store,
            items,
            i + 1,
        )
    }
}

/// The one-level-deep rendering of an element array: its children's roles,
/// bracketed.
pub open spec fn spec_roles_render(store: NativeStore, v: NativeValue) -> Seq<char> {
    match v {
        NativeValue::Array(items) => seq!['['] + spec_roles_from(store, items@, 0) + seq![']'],
        _ => Seq::empty(),
    }
}

/// What one well-known table entry contributes to the dump: nothing when
/// the read fails, otherwise one pair holding the semantic name and the
/// value's rendering (roles one level deep for an element array, the
/// generic rendering otherwise).
pub open spec fn spec_known_field(
    store: NativeStore,
    id: u64,
    name: Seq<char>,
    key: Seq<char>,
    kind: ValueKind,
) -> Seq<(Seq<char>, Seq<char>)> {
    match spec_attribute(store, id, key, kind) {
        Ok(v) => seq![
            (
                name,
                if kind == ValueKind::ElementArray {
                    spec_roles_render(store, v)
                } else {
                    spec_render(v)
                },
            ),
        ],
        Err(_) => Seq::empty(),
    }
}

/// The well-known part of the dump, in the published fixed order: `role`
/// and `subrole` first, the rest alphabetical by semantic name.
pub open spec fn spec_known_fields(store: NativeStore, id: u64) -> Seq<(Seq<char>, Seq<char>)> {
    spec_known_field(store, id, "role"@, "AXRole"@, ValueKind::Text) + spec_known_field(
        store,
        id,
        "subrole"@,
        "AXSubrole"@,
        ValueKind::Text,
    ) + spec_known_field(store, id, "allowed_values"@, "AXAllowedValues"@, ValueKind::AnyArray)
        + spec_known_field(store, id, "children"@, "AXChildren"@, ValueKind::ElementArray)
        + spec_known_field(store, id, "contents"@, "AXContents"@, ValueKind::Element)
        + spec_known_field(store, id, "description"@, "AXDescription"@, ValueKind::Text)
        + spec_known_field(store, id, "element_busy"@, "AXElementBusy"@, ValueKind::Boolean)
        + spec_known_field(store, id, "enabled"@, "AXEnabled"@, ValueKind::Boolean)
        + spec_known_field(store, id, "focused"@, "AXFocused"@, ValueKind::Boolean)
        + spec_known_field(store, id, "frame"@, "AXFrame"@, ValueKind::Rect) + spec_known_field(
        store,
        id,
        "help"@,
        "AXHelp"@,
        ValueKind::Text,
    ) + spec_known_field(store, id, "identifier"@, "AXIdentifier"@, ValueKind::Text)
        + spec_known_field(store, id, "label_value"@, "AXLabelValue"@, ValueKind::Text)
        + spec_known_field(store, id, "main"@, "AXMain"@, ValueKind::Boolean) + spec_known_field(
        store,
        id,
        "max_value"@,
        "AXMaxValue"@,
        ValueKind::Any,
    ) + spec_known_field(store, id, "min_value"@, "AXMinValue"@, ValueKind::Any)
        + spec_known_field(store, id, "minimized"@, "AXMinimized"@, ValueKind::Boolean)
        + spec_known_field(store, id, "parent"@, "AXParent"@, ValueKind::Element)
        + spec_known_field(
        store,
        id,
        "placeholder_value"@,
        "AXPlaceholderValue"@,
        ValueKind::Text,
    ) + spec_known_field(store, id, "position"@, "AXPosition"@, ValueKind::Point)
        + spec_known_field(
        store,
        id,
        "role_description"@,
        "AXRoleDescription"@,
        ValueKind::Text,
    ) + spec_known_field(
        store,
        id,
        "selected_children"@,
        "AXSelectedChildren"@,
        ValueKind::ElementArray,
    ) + spec_known_field(store, id, "size"@, "AXSize"@, ValueKind::Size) + spec_known_field(
        store,
        id,
        "title"@,
        "AXTitle"@,
        ValueKind::Text,
    ) + spec_known_field(
        store,
        id,
        "top_level_ui_element"@,
        "AXTopLevelUIElement"@,
        ValueKind::Element,
    ) + spec_known_field(store, id, "value"@, "AXValue"@, ValueKind::Any) + spec_known_field(
        store,
        id,
        "value_description"@,
        "AXValueDescription"@,
        ValueKind::Text,
    ) + spec_known_field(store, id, "value_increment"@, "AXValueIncrement"@, ValueKind::Any)
        + spec_known_field(
        store,
        id,
        "visible_children"@,
        "AXVisibleChildren"@,
        ValueKind::ElementArray,
    ) + spec_known_field(store, id, "window"@, "AXWindow"@, ValueKind::Element) + spec_known_field(
        store,
        id,
        "windows"@,
        "AXWindows"@,
        ValueKind::ElementArray,
    )
}

/// What the discovered names from one index on contribute to the dump:
/// every name not already covered by the well-known table, with the
/// generic rendering of its raw value; unreadable values are omitted.
pub open spec fn spec_dynamic_from(
    store: NativeStore,
    id: u64,
    names: Seq<Seq<char>>,
    i: int,
) -> Seq<(Seq<char>, Seq<char>)>
    decreases names.len() - i,
{
    if i < 0 || i >= names.len() {
        Seq::empty()
    } else {
        (if !spec_is_registry_key(names[i]) {
            match spec_raw_attribute(store, id, names[i]) {
                Ok(v) => seq![(names[i], spec_render(v))],
                Err(_) => Seq::empty(),
            }
        } else {
            Seq::empty()
        }) + spec_dynamic_from(store, id, names, i + 1)
    }
}

/// The discovered names when the enumeration succeeds, for use in proofs.
pub open spec fn spec_attribute_names_unwrap(store: NativeStore, id: u64) -> Seq<Seq<char>> {
    match spec_attribute_names(store, id) {
        Ok(ks) => ks,
        Err(_) => Seq::empty(),
    }
}

/// The discovered part of the dump; nothing when the enumeration itself
/// fails.
pub open spec fn spec_dynamic_fields(store: NativeStore, id: u64) -> Seq<(Seq<char>, Seq<char>)> {
    match spec_attribute_names(store, id) {
        Ok(names) => spec_dynamic_from(store, id, names, 0),
        Err(_) => Seq::empty(),
    }
}

/// The whole dump: the well-known table's readable entries in fixed order,
/// then the discovered remainder.
pub open spec fn spec_debug_fields(store: NativeStore, id: u64) -> Seq<(Seq<char>, Seq<char>)> {
    spec_known_fields(store, id) + spec_dynamic_fields(store, id)
}

/// Renders a well-known element array as its children's roles, one level
/// deep.
fn render_roles(store: &NativeStore, v: &NativeValue) -> (r: String)
    ensures
        r@ == spec_roles_render(*store, *v),
{
    proof {
        reveal_strlit("[");
        reveal_strlit("]");
    }
    match v {
        NativeValue::Array(items) => {
            let mut s = String::from_str("[");
            s.append(roles_from(store, items, 0).as_str());
            s.append("]");
            proof {
                assert(s@ =~= spec_roles_render(*store, *v));
            }
            s
        },
        _ => {
            let s = String::new();
            proof {
                assert(s@ =~= spec_roles_render(*store, *v));
            }
            s
        },
    }
}

/// Renders the roles of an array's tail, comma separated.
fn roles_from(store: &NativeStore, items: &Vec<NativeValue>, i: usize) -> (r: String)
    ensures
        r@ == spec_roles_from(*store, items@, i as int),
    decreases items@.len() - i,
{
    proof {
        reveal_strlit(", ");
    }
    if i >= items.len() {
        String::new()
    } else {
        let id: u64 = match &items[i] {
            NativeValue::ElementRef(x) => *x,
            _ => 0u64,
        };
        let mut s = match (AXUIElement { id }).role(store) {
            Ok(role) => role,
            Err(_) => String::new(),
        };
        proof {
            assert(s@ == spec_role_text(*store, spec_element_id(items@[i as int])));
        }
        if i < items.len() - 1 {
            s.append(", ");
            s.append(roles_from(store, items, i + 1).as_str());
            proof {
                assert(s@ =~= spec_roles_from(*store, items@, i as int));
            }
        }
        s
    }
}

/// Reads one well-known attribute and appends its dump line, or nothing
/// when the read fails.
fn push_known_field(
    out: &mut Vec<DebugField>,
    store: &NativeStore,
    elem: &AXUIElement,
    name: &str,
    attr: &AXAttribute,
)
    ensures
        fields_view(final(out)@) =~~= fields_view(old(out)@) + spec_known_field(
            *store,
            elem.id,
            name@,
            attr.key@,
            attr.kind,
        ),
{
    match elem.attribute(store, attr) {
        Ok(v) => {
            let rendered = if matches!(attr.kind, ValueKind::ElementArray) {
                render_roles(store, v)
            } else {
                render_value(v)
            };
            out.push(DebugField { name: name.to_owned(), rendered });
            proof {
                assert(fields_view(out@) =~~= fields_view(old(out)@) + spec_known_field(
                    *store,
                    elem.id,
                    name@,
                    attr.key@,
                    attr.kind,
                ));
            }
        },
        Err(_) => {
            proof {
                assert(fields_view(out@) =~~= fields_view(old(out)@) + spec_known_field(
                    *store,
                    elem.id,
                    name@,
                    attr.key@,
                    attr.kind,
                ));
            }
        },
    }
}

impl AXUIElement {
    /// The structured diagnostic dump of this element: the well-known
    /// attributes it can read, in the registry's fixed order, then its
    /// discovered attributes not covered by that table, in the service's
    /// order.
    pub fn debug_all(&self, store: &NativeStore) -> (r: Vec<DebugField>)
        ensures
            fields_view(r@) =~~= spec_debug_fields(*store, self.id),
    {
        let mut out: Vec<DebugField> = Vec::new();
        push_known_field(&mut out, store, self, "role", &AXAttribute::role());
        push_known_field(&mut out, store, self, "subrole", &AXAttribute::subrole());
        push_known_field(&mut out, store, self, "allowed_values", &AXAttribute::allowed_values());
        push_known_field(&mut out, store, self, "children", &AXAttribute::children());
        push_known_field(&mut out, store, self, "contents", &AXAttribute::contents());
        push_known_field(&mut out, store, self, "description", &AXAttribute::description());
        push_known_field(&mut out, store, self, "element_busy", &AXAttribute::element_busy());
        push_known_field(&mut out, store, self, "enabled", &AXAttribute::enabled());
        push_known_field(&mut out, store, self, "focused", &AXAttribute::focused());
        push_known_field(&mut out, store, self, "frame", &AXAttribute::frame());
        push_known_field(&mut out, store, self, "help", &AXAttribute::help());
        push_known_field(&mut out, store, self, "identifier", &AXAttribute::identifier());
        push_known_field(&mut out, store, self, "label_value", &AXAttribute::label_value());
        push_known_field(&mut out, store, self, "main", &AXAttribute::main());
        push_known_field(&mut out, store, self, "max_value", &AXAttribute::max_value());
        push_known_field(&mut out, store, self, "min_value", &AXAttribute::min_value());
        push_known_field(&mut out, store, self, "minimized", &AXAttribute::minimized());
        push_known_field(&mut out, store, self, "parent", &AXAttribute::parent());
        push_known_field(
            &mut out,
            store,
            self,
            "placeholder_value",
            &AXAttribute::placeholder_value(),
        );
        push_known_field(&mut out, store, self, "position", &AXAttribute::position());
        push_known_field(
            &mut out,
            store,
            self,
            "role_description",
            &AXAttribute::role_description(),
        );
        push_known_field(
            &mut out,
            store,
            self,
            "selected_children",
            &AXAttribute::selected_children(),
        );
        push_known_field(&mut out, store, self, "size", &AXAttribute::size());
        push_known_field(&mut out, store, self, "title", &AXAttribute::title());
        push_known_field(
            &mut out,
            store,
            self,
            "top_level_ui_element",
            &AXAttribute::top_level_ui_element(),
        );
        push_known_field(&mut out, store, self, "value", &AXAttribute::value());
        push_known_field(
            &mut out,
            store,
            self,
            "value_description",
            &AXAttribute::value_description(),
        );
        push_known_field(
            &mut out,
            store,
            self,
            "value_increment",
            &AXAttribute::value_increment(),
        );
        push_known_field(
            &mut out,
            store,
            self,
            "visible_children",
            &AXAttribute::visible_children(),
        );
        push_known_field(&mut out, store, self, "window", &AXAttribute::window());
        push_known_field(&mut out, store, self, "windows", &AXAttribute::windows());
        proof {
            assert(fields_view(out@) =~~= spec_known_fields(*store, self.id));
        }
        match self.attribute_names(store) {
            Ok(names) => {
                let ghost ks = spec_attribute_names_unwrap(*store, self.id);
                proof {
                    assert(names@.map(|i: int, s: String| s@) =~~= ks);
                }
                let mut i: usize = 0;
                while i < names.len()
                    invariant
                        i <= names@.len(),
                        names@.map(|k: int, s: String| s@) =~~= ks,
                        ks.len() == names@.len(),
                        spec_attribute_names(*store, self.id) == Ok::<Seq<Seq<char>>, crate::Error>(
                            ks,
                        ),
                        fields_view(out@) + spec_dynamic_from(*store, self.id, ks, i as int) =~~=
                            spec_known_fields(*store, self.id) + spec_dynamic_from(
                            *store,
                            self.id,
                            ks,
                            0,
                        ),
                    decreases names@.len() - i,
                {
                    proof {
                        assert(names@[i as int]@ == ks[i as int]);
                    }
                    let ghost pre = out@;
                    if !is_registry_key(&names[i]) {
                        match self.raw_attribute(store, &names[i]) {
                            Ok(v) => {
                                let rendered = render_value(v);
                                let name = names[i].clone();
                                out.push(DebugField { name, rendered });
                                proof {
                                    assert(fields_view(out@) =~~= fields_view(pre) + seq![
                                        (ks[i as int], spec_render(*v)),
                                    ]);
                                }
                            },
                            Err(_) => {},
                        }
                    }
                    proof {
                        assert(fields_view(out@) + spec_dynamic_from(
                            *store,
                            self.id,
                            ks,
                            i + 1 as int,
                        ) =~~= spec_known_fields(*store, self.id) + spec_dynamic_from(
                            *store,
                            self.id,
                            ks,
                            0,
                        ));
                    }
                    i = i + 1;
                }
                proof {
                    assert(spec_dynamic_from(*store, self.id, ks, names@.len() as int)
                        =~~= Seq::<(Seq<char>, Seq<char>)>::empty());
                    assert(fields_view(out@) =~~= spec_debug_fields(*store, self.id));
                }
            },
            Err(_) => {
                proof {
                    assert(fields_view(out@) =~~= spec_debug_fields(*store, self.id));
                }
            },
        }
        out
    }
}

} // verus!
