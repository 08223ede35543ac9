//! The typed accessor surface: one named getter per registered attribute,
//! and a named setter where the service accepts writes, each implemented in
//! terms of the generic get/set on the element handle plus the value codec.

use vstd::prelude::*;
use crate::attribute::AXAttribute;
use crate::ui_element::{spec_attribute, spec_raw_attribute, set_outcome, AXUIElement, NativeStore};
use crate::value::{
    decode_boolean, decode_element_array, decode_element, decode_point, decode_rect, decode_size,
    decode_text, encode_boolean, encode_point, encode_size, NativeValue, Point, Rect, Size,
    ValueKind,
};
use crate::Error;

verus! {

/// What a text-typed fetch returns, as characters.
pub open spec fn spec_text_attribute(store: NativeStore, id: u64, key: Seq<char>) -> Result<
    Seq<char>,
    Error,
> {
    match spec_attribute(store, id, key, ValueKind::Text) {
        Ok(v) => match v {
            NativeValue::Text(s) => Ok(s@),
            _ => Err(Error::UnexpectedType),
        },
        Err(e) => Err(e),
    }
}

/// What a boolean-typed fetch returns.
pub open spec fn spec_boolean_attribute(store: NativeStore, id: u64, key: Seq<char>) -> Result<
    bool,
    Error,
> {
    match spec_attribute(store, id, key, ValueKind::Boolean) {
        Ok(v) => match v {
            NativeValue::Boolean(b) => Ok(b),
            _ => Err(Error::UnexpectedType),
        },
        Err(e) => Err(e),
    }
}

/// What an element-typed fetch returns: the referenced element's identity.
pub open spec fn spec_element_attribute(store: NativeStore, id: u64, key: Seq<char>) -> Result<
    u64,
    Error,
> {
    match spec_attribute(store, id, key, ValueKind::Element) {
        Ok(v) => match v {
            NativeValue::ElementRef(e) => Ok(e),
            _ => Err(Error::UnexpectedType),
        },
        Err(e) => Err(e),
    }
}

/// What an element-array fetch returns: the referenced identities in native
/// order, never sorted or deduplicated.
pub open spec fn spec_elements_attribute(store: NativeStore, id: u64, key: Seq<char>) -> Result<
    Seq<u64>,
    Error,
> {
    match spec_attribute(store, id, key, ValueKind::ElementArray) {
        Ok(v) => match crate::value::spec_decode_element_array(v) {
            Ok(ids) => Ok(ids),
            Err(_) => Err(Error::UnexpectedType),
        },
        Err(e) => Err(e),
    }
}

/// What a point-typed fetch returns after unboxing.
pub open spec fn spec_point_attribute(store: NativeStore, id: u64, key: Seq<char>) -> Result<
    Point,
    Error,
> {
    match spec_attribute(store, id, key, ValueKind::Point) {
        Ok(v) => match v {
            NativeValue::BoxedPoint(p) => Ok(p),
            _ => Err(Error::UnexpectedType),
        },
        Err(e) => Err(e),
    }
}

/// What a size-typed fetch returns after unboxing.
pub open spec fn spec_size_attribute(store: NativeStore, id: u64, key: Seq<char>) -> Result<
    Size,
    Error,
> {
    match spec_attribute(store, id, key, ValueKind::Size) {
        Ok(v) => match v {
            NativeValue::BoxedSize(s) => Ok(s),
            _ => Err(Error::UnexpectedType),
        },
        Err(e) => Err(e),
    }
}

/// What a rectangle-typed fetch returns after unboxing.
pub open spec fn spec_rect_attribute(store: NativeStore, id: u64, key: Seq<char>) -> Result<
    Rect,
    Error,
> {
    match spec_attribute(store, id, key, ValueKind::Rect) {
        Ok(v) => match v {
            NativeValue::BoxedRect(r) => Ok(r),
            _ => Err(Error::UnexpectedType),
        },
        Err(e) => Err(e),
    }
}

/// What an untyped array fetch returns: the native items in native order.
pub open spec fn spec_array_attribute(store: NativeStore, id: u64, key: Seq<char>) -> Result<
    Vec<NativeValue>,
    Error,
> {
    match spec_attribute(store, id, key, ValueKind::AnyArray) {
        Ok(v) => match v {
            NativeValue::Array(items) => Ok(items),
            _ => Err(Error::UnexpectedType),
        },
        Err(e) => Err(e),
    }
}

impl AXUIElement {
    /// Fetches and decodes a text attribute.
    pub fn text_attribute(&self, store: &NativeStore, attr: &AXAttribute) -> (r: Result<
        String,
        Error,
    >)
        requires
            attr.kind == ValueKind::Text,
        ensures
            r matches Ok(s) ==> spec_text_attribute(*store, self.id, attr.key@) == Ok::<
                Seq<char>,
                Error,
            >(s@),
            r matches Err(e) ==> spec_text_attribute(*store, self.id, attr.key@) == Err::<
                Seq<char>,
                Error,
            >(e),
    {
        match self.attribute(store, attr) {
            Ok(v) => match decode_text(v) {
                Ok(s) => Ok(s),
                Err(_) => Err(Error::UnexpectedType),
            },
            Err(e) => Err(e),
        }
    }

    /// Fetches and decodes a boolean attribute.
    pub fn boolean_attribute(&self, store: &NativeStore, attr: &AXAttribute) -> (r: Result<
        bool,
        Error,
    >)
        requires
            attr.kind == ValueKind::Boolean,
        ensures
            r matches Ok(b) ==> spec_boolean_attribute(*store, self.id, attr.key@) == Ok::<
                bool,
                Error,
            >(b),
            r matches Err(e) ==> spec_boolean_attribute(*store, self.id, attr.key@) == Err::<
                bool,
                Error,
            >(e),
    {
        match self.attribute(store, attr) {
            Ok(v) => match decode_boolean(v) {
                Ok(b) => Ok(b),
                Err(_) => Err(Error::UnexpectedType),
            },
            Err(e) => Err(e),
        }
    }

    /// Fetches and decodes a single element reference attribute.
    pub fn element_attribute(&self, store: &NativeStore, attr: &AXAttribute) -> (r: Result<
        AXUIElement,
        Error,
    >)
        requires
            attr.kind == ValueKind::Element,
        ensures
            r matches Ok(e) ==> spec_element_attribute(*store, self.id, attr.key@) == Ok::<
                u64,
                Error,
            >(e.id),
            r matches Err(e) ==> spec_element_attribute(*store, self.id, attr.key@) == Err::<
                u64,
                Error,
            >(e),
    {
        match self.attribute(store, attr) {
            Ok(v) => match decode_element(v) {
                Ok(id) => Ok(AXUIElement { id }),
                Err(_) => Err(Error::UnexpectedType),
            },
            Err(e) => Err(e),
        }
    }

    /// Fetches and decodes an element-array attribute, preserving native
    /// order.
    pub fn elements_attribute(&self, store: &NativeStore, attr: &AXAttribute) -> (r: Result<
        Vec<AXUIElement>,
        Error,
    >)
        requires
            attr.kind == ValueKind::ElementArray,
        ensures
            r matches Ok(es) ==> (spec_elements_attribute(*store, self.id, attr.key@) matches Ok(
                ids,
            ) && es@.map(|i: int, e: AXUIElement| e.id) =~= ids),
            r matches Err(e) ==> spec_elements_attribute(*store, self.id, attr.key@) == Err::<
                Seq<u64>,
                Error,
            >(e),
    {
        match self.attribute(store, attr) {
            Ok(v) => match decode_element_array(v) {
                Ok(ids) => {
                    let mut out: Vec<AXUIElement> = Vec::new();
                    let mut i: usize = 0;
                    while i < ids.len()
                        invariant
                            i <= ids@.len(),
                            out@.len() == i,
                            forall|j: int| 0 <= j < i ==> (#[trigger] out@[j]).id == ids@[j],
                        decreases ids@.len() - i,
                    {
                        out.push(AXUIElement { id: ids[i] });
                        i = i + 1;
                    }
                    proof {
                        assert(out@.map(|j: int, e: AXUIElement| e.id) =~= ids@);
                    }
                    Ok(out)
                },
                Err(_) => Err(Error::UnexpectedType),
            },
            Err(e) => Err(e),
        }
    }

    /// Fetches and unboxes a point attribute.
    pub fn point_attribute(&self, store: &NativeStore, attr: &AXAttribute) -> (r: Result<
        Point,
        Error,
    >)
        requires
            attr.kind == ValueKind::Point,
        ensures
            r == spec_point_attribute(*store, self.id, attr.key@),
    {
        match self.attribute(store, attr) {
            Ok(v) => match decode_point(v) {
                Ok(p) => Ok(p),
                Err(_) => Err(Error::UnexpectedType),
            },
            Err(e) => Err(e),
        }
    }

    /// Fetches and unboxes a size attribute.
    pub fn size_attribute(&self, store: &NativeStore, attr: &AXAttribute) -> (r: Result<
        Size,
        Error,
    >)
        requires
            attr.kind == ValueKind::Size,
        ensures
            r == spec_size_attribute(*store, self.id, attr.key@),
    {
        match self.attribute(store, attr) {
            Ok(v) => match decode_size(v) {
                Ok(s) => Ok(s),
                Err(_) => Err(Error::UnexpectedType),
            },
            Err(e) => Err(e),
        }
    }

    /// Fetches and unboxes a rectangle attribute.
    pub fn rect_attribute(&self, store: &NativeStore, attr: &AXAttribute) -> (r: Result<
        Rect,
        Error,
    >)
        requires
            attr.kind == ValueKind::Rect,
        ensures
            r == spec_rect_attribute(*store, self.id, attr.key@),
    {
        match self.attribute(store, attr) {
            Ok(v) => match decode_rect(v) {
                Ok(rc) => Ok(rc),
                Err(_) => Err(Error::UnexpectedType),
            },
            Err(e) => Err(e),
        }
    }

    /// Fetches an untyped array attribute.
    pub fn array_attribute<'a>(&self, store: &'a NativeStore, attr: &AXAttribute) -> (r: Result<
        &'a Vec<NativeValue>,
        Error,
    >)
        requires
            attr.kind == ValueKind::AnyArray,
        ensures
            r matches Ok(items) ==> spec_array_attribute(*store, self.id, attr.key@) == Ok::<
                Vec<NativeValue>,
                Error,
            >(*items),
            r matches Err(e) ==> spec_array_attribute(*store, self.id, attr.key@) == Err::<
                Vec<NativeValue>,
                Error,
            >(e),
    {
        match self.attribute(store, attr) {
            Ok(v) => match v {
                NativeValue::Array(items) => Ok(items),
                _ => Err(Error::UnexpectedType),
            },
            Err(e) => Err(e),
        }
    }

    pub fn role(&self, store: &NativeStore) -> (r: Result<String, Error>)
        ensures
            r matches Ok(s) ==> spec_text_attribute(*store, self.id, "AXRole"@) == Ok::<
                Seq<char>,
                Error,
            >(s@),
            r matches Err(e) ==> spec_text_attribute(*store, self.id, "AXRole"@) == Err::<
                Seq<char>,
                Error,
            >(e),
    {
        self.text_attribute(store, &AXAttribute::role())
    }

    pub fn subrole(&self, store: &NativeStore) -> (r: Result<String, Error>)
        ensures
            r matches Ok(s) ==> spec_text_attribute(*store, self.id, "AXSubrole"@) == Ok::<
                Seq<char>,
                Error,
            >(s@),
            r matches Err(e) ==> spec_text_attribute(*store, self.id, "AXSubrole"@) == Err::<
                Seq<char>,
                Error,
            >(e),
    {
        self.text_attribute(store, &AXAttribute::subrole())
    }

    pub fn allowed_values<'a>(&self, store: &'a NativeStore) -> (r: Result<
        &'a Vec<NativeValue>,
        Error,
    >)
        ensures
            r matches Ok(items) ==> spec_array_attribute(*store, self.id, "AXAllowedValues"@)
                == Ok::<Vec<NativeValue>, Error>(*items),
            r matches Err(e) ==> spec_array_attribute(*store, self.id, "AXAllowedValues"@) == Err::<
                Vec<NativeValue>,
                Error,
            >(e),
    {
        self.array_attribute(store, &AXAttribute::allowed_values())
    }

    pub fn children(&self, store: &NativeStore) -> (r: Result<Vec<AXUIElement>, Error>)
        ensures
            r matches Ok(es) ==> (spec_elements_attribute(*store, self.id, "AXChildren"@) matches
                Ok(ids) && es@.map(|i: int, e: AXUIElement| e.id) =~= ids),
            r matches Err(e) ==> spec_elements_attribute(*store, self.id, "AXChildren"@) == Err::<
                Seq<u64>,
                Error,
            >(e),
    {
        self.elements_attribute(store, &AXAttribute::children())
    }

    pub fn contents(&self, store: &NativeStore) -> (r: Result<AXUIElement, Error>)
        ensures
            r matches Ok(e) ==> spec_element_attribute(*store, self.id, "AXContents"@) == Ok::<
                u64,
                Error,
            >(e.id),
            r matches Err(e) ==> spec_element_attribute(*store, self.id, "AXContents"@) == Err::<
                u64,
                Error,
            >(e),
    {
        self.element_attribute(store, &AXAttribute::contents())
    }

    pub fn description(&self, store: &NativeStore) -> (r: Result<String, Error>)
        ensures
            r matches Ok(s) ==> spec_text_attribute(*store, self.id, "AXDescription"@) == Ok::<
                Seq<char>,
                Error,
            >(s@),
            r matches Err(e) ==> spec_text_attribute(*store, self.id, "AXDescription"@) == Err::<
                Seq<char>,
                Error,
            >(e),
    {
        self.text_attribute(store, &AXAttribute::description())
    }

    pub fn element_busy(&self, store: &NativeStore) -> (r: Result<bool, Error>)
        ensures
            r matches Ok(b) ==> spec_boolean_attribute(*store, self.id, "AXElementBusy"@) == Ok::<
                bool,
                Error,
            >(b),
            r matches Err(e) ==> spec_boolean_attribute(*store, self.id, "AXElementBusy"@) == Err::<
                bool,
                Error,
            >(e),
    {
        self.boolean_attribute(store, &AXAttribute::element_busy())
    }

    pub fn enabled(&self, store: &NativeStore) -> (r: Result<bool, Error>)
        ensures
            r matches Ok(b) ==> spec_boolean_attribute(*store, self.id, "AXEnabled"@) == Ok::<
                bool,
                Error,
            >(b),
            r matches Err(e) ==> spec_boolean_attribute(*store, self.id, "AXEnabled"@) == Err::<
                bool,
                Error,
            >(e),
    {
        self.boolean_attribute(store, &AXAttribute::enabled())
    }

    pub fn focused(&self, store: &NativeStore) -> (r: Result<bool, Error>)
        ensures
            r matches Ok(b) ==> spec_boolean_attribute(*store, self.id, "AXFocused"@) == Ok::<
                bool,
                Error,
            >(b),
            r matches Err(e) ==> spec_boolean_attribute(*store, self.id, "AXFocused"@) == Err::<
                bool,
                Error,
            >(e),
    {
        self.boolean_attribute(store, &AXAttribute::focused())
    }

    pub fn frame(&self, store: &NativeStore) -> (r: Result<Rect, Error>)
        ensures
            r == spec_rect_attribute(*store, self.id, "AXFrame"@),
    {
        self.rect_attribute(store, &AXAttribute::frame())
    }

    pub fn help(&self, store: &NativeStore) -> (r: Result<String, Error>)
        ensures
            r matches Ok(s) ==> spec_text_attribute(*store, self.id, "AXHelp"@) == Ok::<
                Seq<char>,
                Error,
            >(s@),
            r matches Err(e) ==> spec_text_attribute(*store, self.id, "AXHelp"@) == Err::<
                Seq<char>,
                Error,
            >(e),
    {
        self.text_attribute(store, &AXAttribute::help())
    }

    pub fn identifier(&self, store: &NativeStore) -> (r: Result<String, Error>)
        ensures
            r matches Ok(s) ==> spec_text_attribute(*store, self.id, "AXIdentifier"@) == Ok::<
                Seq<char>,
                Error,
            >(s@),
            r matches Err(e) ==> spec_text_attribute(*store, self.id, "AXIdentifier"@) == Err::<
                Seq<char>,
                Error,
            >(e),
    {
        self.text_attribute(store, &AXAttribute::identifier())
    }

    pub fn label_value(&self, store: &NativeStore) -> (r: Result<String, Error>)
        ensures
            r matches Ok(s) ==> spec_text_attribute(*store, self.id, "AXLabelValue"@) == Ok::<
                Seq<char>,
                Error,
            >(s@),
            r matches Err(e) ==> spec_text_attribute(*store, self.id, "AXLabelValue"@) == Err::<
                Seq<char>,
                Error,
            >(e),
    {
        self.text_attribute(store, &AXAttribute::label_value())
    }

    pub fn main(&self, store: &NativeStore) -> (r: Result<bool, Error>)
        ensures
            r matches Ok(b) ==> spec_boolean_attribute(*store, self.id, "AXMain"@) == Ok::<
                bool,
                Error,
            >(b),
            r matches Err(e) ==> spec_boolean_attribute(*store, self.id, "AXMain"@) == Err::<
                bool,
                Error,
            >(e),
    {
        self.boolean_attribute(store, &AXAttribute::main())
    }

    /// Writes the `main` attribute.
    pub fn set_main(&self, store: &mut NativeStore, value: bool) -> (r: Result<(), Error>)
        ensures
            set_outcome(
                *old(store),
                *final(store),
                self.id,
                "AXMain"@,
                ValueKind::Boolean,
                NativeValue::Boolean(value),
                r,
            ),
    {
        self.set_attribute(store, &AXAttribute::main(), encode_boolean(value))
    }

    pub fn max_value<'a>(&self, store: &'a NativeStore) -> (r: Result<&'a NativeValue, Error>)
        ensures
            r matches Ok(v) ==> spec_raw_attribute(*store, self.id, "AXMaxValue"@) == Ok::<
                NativeValue,
                Error,
            >(*v),
            r matches Err(e) ==> spec_raw_attribute(*store, self.id, "AXMaxValue"@) == Err::<
                NativeValue,
                Error,
            >(e),
    {
        self.attribute(store, &AXAttribute::max_value())
    }

    pub fn min_value<'a>(&self, store: &'a NativeStore) -> (r: Result<&'a NativeValue, Error>)
        ensures
            r matches Ok(v) ==> spec_raw_attribute(*store, self.id, "AXMinValue"@) == Ok::<
                NativeValue,
                Error,
            >(*v),
            r matches Err(e) ==> spec_raw_attribute(*store, self.id, "AXMinValue"@) == Err::<
                NativeValue,
                Error,
            >(e),
    {
        self.attribute(store, &AXAttribute::min_value())
    }

    pub fn minimized(&self, store: &NativeStore) -> (r: Result<bool, Error>)
        ensures
            r matches Ok(b) ==> spec_boolean_attribute(*store, self.id, "AXMinimized"@) == Ok::<
                bool,
                Error,
            >(b),
            r matches Err(e) ==> spec_boolean_attribute(*store, self.id, "AXMinimized"@) == Err::<
                bool,
                Error,
            >(e),
    {
        self.boolean_attribute(store, &AXAttribute::minimized())
    }

    pub fn parent(&self, store: &NativeStore) -> (r: Result<AXUIElement, Error>)
        ensures
            r matches Ok(e) ==> spec_element_attribute(*store, self.id, "AXParent"@) == Ok::<
                u64,
                Error,
            >(e.id),
            r matches Err(e) ==> spec_element_attribute(*store, self.id, "AXParent"@) == Err::<
                u64,
                Error,
            >(e),
    {
        self.element_attribute(store, &AXAttribute::parent())
    }

    pub fn placeholder_value(&self, store: &NativeStore) -> (r: Result<String, Error>)
        ensures
            r matches Ok(s) ==> spec_text_attribute(*store, self.id, "AXPlaceholderValue"@) == Ok::<
                Seq<char>,
                Error,
            >(s@),
            r matches Err(e) ==> spec_text_attribute(*store, self.id, "AXPlaceholderValue"@)
                == Err::<Seq<char>, Error>(e),
    {
        self.text_attribute(store, &AXAttribute::placeholder_value())
    }

    pub fn position(&self, store: &NativeStore) -> (r: Result<Point, Error>)
        ensures
            r == spec_point_attribute(*store, self.id, "AXPosition"@),
    {
        self.point_attribute(store, &AXAttribute::position())
    }

    /// Writes the `position` attribute, boxed with the point tag.
    pub fn set_position(&self, store: &mut NativeStore, value: Point) -> (r: Result<(), Error>)
        ensures
            set_outcome(
                *old(store),
                *final(store),
                self.id,
                "AXPosition"@,
                ValueKind::Point,
                NativeValue::BoxedPoint(value),
                r,
            ),
    {
        self.set_attribute(store, &AXAttribute::position(), encode_point(value))
    }

    pub fn role_description(&self, store: &NativeStore) -> (r: Result<String, Error>)
        ensures
            r matches Ok(s) ==> spec_text_attribute(*store, self.id, "AXRoleDescription"@) == Ok::<
                Seq<char>,
                Error,
            >(s@),
            r matches Err(e) ==> spec_text_attribute(*store, self.id, "AXRoleDescription"@)
                == Err::<Seq<char>, Error>(e),
    {
        self.text_attribute(store, &AXAttribute::role_description())
    }

    pub fn selected_children(&self, store: &NativeStore) -> (r: Result<Vec<AXUIElement>, Error>)
        ensures
            r matches Ok(es) ==> (spec_elements_attribute(*store, self.id, "AXSelectedChildren"@)
                matches Ok(ids) && es@.map(|i: int, e: AXUIElement| e.id) =~= ids),
            r matches Err(e) ==> spec_elements_attribute(*store, self.id, "AXSelectedChildren"@)
                == Err::<Seq<u64>, Error>(e),
    {
        self.elements_attribute(store, &AXAttribute::selected_children())
    }

    pub fn size(&self, store: &NativeStore) -> (r: Result<Size, Error>)
        ensures
            r == spec_size_attribute(*store, self.id, "AXSize"@),
    {
        self.size_attribute(store, &AXAttribute::size())
    }

    /// Writes the `size` attribute, boxed with the size tag.
    pub fn set_size(&self, store: &mut NativeStore, value: Size) -> (r: Result<(), Error>)
        ensures
            set_outcome(
                *old(store),
                *final(store),
                self.id,
                "AXSize"@,
                ValueKind::Size,
                NativeValue::BoxedSize(value),
                r,
            ),
    {
        self.set_attribute(store, &AXAttribute::size(), encode_size(value))
    }

    pub fn title(&self, store: &NativeStore) -> (r: Result<String, Error>)
        ensures
            r matches Ok(s) ==> spec_text_attribute(*store, self.id, "AXTitle"@) == Ok::<
                Seq<char>,
                Error,
            >(s@),
            r matches Err(e) ==> spec_text_attribute(*store, self.id, "AXTitle"@) == Err::<
                Seq<char>,
                Error,
            >(e),
    {
        self.text_attribute(store, &AXAttribute::title())
    }

    pub fn top_level_ui_element(&self, store: &NativeStore) -> (r: Result<AXUIElement, Error>)
        ensures
            r matches Ok(e) ==> spec_element_attribute(*store, self.id, "AXTopLevelUIElement"@)
                == Ok::<u64, Error>(e.id),
            r matches Err(e) ==> spec_element_attribute(*store, self.id, "AXTopLevelUIElement"@)
                == Err::<u64, Error>(e),
    {
        self.element_attribute(store, &AXAttribute::top_level_ui_element())
    }

    pub fn value<'a>(&self, store: &'a NativeStore) -> (r: Result<&'a NativeValue, Error>)
        ensures
            r matches Ok(v) ==> spec_raw_attribute(*store, self.id, "AXValue"@) == Ok::<
                NativeValue,
                Error,
            >(*v),
            r matches Err(e) ==> spec_raw_attribute(*store, self.id, "AXValue"@) == Err::<
                NativeValue,
                Error,
            >(e),
    {
        self.attribute(store, &AXAttribute::value())
    }

    /// Writes the `value` attribute. The attribute's declared shape is
    /// dynamic, so any native value is accepted client-side; the service
    /// still decides whether the attribute is settable.
    pub fn set_value(&self, store: &mut NativeStore, value: NativeValue) -> (r: Result<(), Error>)
        ensures
            set_outcome(
                *old(store),
                *final(store),
                self.id,
                "AXValue"@,
                ValueKind::Any,
                value,
                r,
            ),
    {
        self.set_attribute(store, &AXAttribute::value(), value)
    }

    pub fn value_description(&self, store: &NativeStore) -> (r: Result<String, Error>)
        ensures
            r matches Ok(s) ==> spec_text_attribute(*store, self.id, "AXValueDescription"@) == Ok::<
                Seq<char>,
                Error,
            >(s@),
            r matches Err(e) ==> spec_text_attribute(*store, self.id, "AXValueDescription"@)
                == Err::<Seq<char>, Error>(e),
    {
        self.text_attribute(store, &AXAttribute::value_description())
    }

    pub fn value_increment<'a>(&self, store: &'a NativeStore) -> (r: Result<&'a NativeValue, Error>)
        ensures
            r matches Ok(v) ==> spec_raw_attribute(*store, self.id, "AXValueIncrement"@) == Ok::<
                NativeValue,
                Error,
            >(*v),
            r matches Err(e) ==> spec_raw_attribute(*store, self.id, "AXValueIncrement"@) == Err::<
                NativeValue,
                Error,
            >(e),
    {
        self.attribute(store, &AXAttribute::value_increment())
    }

    pub fn visible_children(&self, store: &NativeStore) -> (r: Result<Vec<AXUIElement>, Error>)
        ensures
            r matches Ok(es) ==> (spec_elements_attribute(*store, self.id, "AXVisibleChildren"@)
                matches Ok(ids) && es@.map(|i: int, e: AXUIElement| e.id) =~= ids),
            r matches Err(e) ==> spec_elements_attribute(*store, self.id, "AXVisibleChildren"@)
                == Err::<Seq<u64>, Error>(e),
    {
        self.elements_attribute(store, &AXAttribute::visible_children())
    }

    pub fn window(&self, store: &NativeStore) -> (r: Result<AXUIElement, Error>)
        ensures
            r matches Ok(e) ==> spec_element_attribute(*store, self.id, "AXWindow"@) == Ok::<
                u64,
                Error,
            >(e.id),
            r matches Err(e) ==> spec_element_attribute(*store, self.id, "AXWindow"@) == Err::<
                u64,
                Error,
            >(e),
    {
        self.element_attribute(store, &AXAttribute::window())
    }

    pub fn windows(&self, store: &NativeStore) -> (r: Result<Vec<AXUIElement>, Error>)
        ensures
            r matches Ok(es) ==> (spec_elements_attribute(*store, self.id, "AXWindows"@) matches Ok(
                ids,
            ) && es@.map(|i: int, e: AXUIElement| e.id) =~= ids),
            r matches Err(e) ==> spec_elements_attribute(*store, self.id, "AXWindows"@) == Err::<
                Seq<u64>,
                Error,
            >(e),
    {
        self.elements_attribute(store, &AXAttribute::windows())
    }
}

} // verus!
