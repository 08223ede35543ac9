//! The element handle and the model of the native service's state.
//!
//! An [`AXUIElement`] is an opaque reference to one UI element; equality is
//! identity of the underlying native reference, never attribute contents.
//! All element "state" is remote: it lives in the service, modelled here by
//! an explicit [`NativeStore`] value that every operation takes as a
//! parameter. A store holds, per element, the attribute table the service
//! would report for it, plus whether the element still answers at all (a
//! stale reference or an unresponsive remote process reports a native error
//! code on every call).

use vstd::prelude::*;
use crate::attribute::AXAttribute;
use crate::value::{kind_matches, NativeValue, ValueKind};
use crate::Error;

verus! {

/// The native error code for a stale or unknown element reference.
pub const AX_ERROR_INVALID_UI_ELEMENT: i32 = -25202;

/// The native error code for a call the service could not complete, e.g.
/// because the remote process stopped responding.
pub const AX_ERROR_CANNOT_COMPLETE: i32 = -25204;

/// One attribute as the service stores it: its key, its current value, and
/// whether the service accepts writes to it.
#[derive(Debug)]
pub struct NativeAttribute {
    pub key: String,
    pub value: NativeValue,
    pub writable: bool,
}

/// One element as the service stores it. `responsive` is false for an
/// element whose process no longer answers: every call on it fails with a
/// native error code.
#[derive(Debug)]
pub struct NativeElement {
    pub id: u64,
    pub attributes: Vec<NativeAttribute>,
    pub responsive: bool,
}

/// The remote state of the native service: every element it knows, with
/// its attribute table.
#[derive(Debug)]
pub struct NativeStore {
    pub elements: Vec<NativeElement>,
}

/// An opaque handle to one UI element. Two handles are the same element
/// exactly when they carry the same native reference.
#[derive(Clone, Copy, PartialEq, Eq, Structural, Hash, Debug)]
pub struct AXUIElement {
    pub id: u64,
}

/// The index of the first element with the given identifier, or -1.
pub open spec fn elem_index(elems: Seq<NativeElement>, id: u64) -> int
    decreases elems.len(),
{
    if elems.len() == 0 {
        -1
    } else if elems[0].id == id {
        0
    } else if elem_index(elems.drop_first(), id) < 0 {
        -1
    } else {
        elem_index(elems.drop_first(), id) + 1
    }
}

/// What `elem_index` finds: the first match, or a proof there is none.
pub proof fn lemma_elem_index(elems: Seq<NativeElement>, id: u64)
    ensures
        elem_index(elems, id) >= 0 ==> 0 <= elem_index(elems, id) < elems.len()
            && elems[elem_index(elems, id)].id == id && (forall|j: int|
            0 <= j < elem_index(elems, id) ==> elems[j].id != id),
        elem_index(elems, id) < 0 ==> forall|j: int| 0 <= j < elems.len() ==> elems[j].id != id,
    decreases elems.len(),
{
    if elems.len() > 0 && elems[0].id != id {
        lemma_elem_index(elems.drop_first(), id);
        assert(forall|j: int|
            1 <= j < elems.len() ==> elems[j] == elems.drop_first()[j - 1]);
    }
}

/// The index of the first attribute with the given key, or -1.
pub open spec fn attr_index(attrs: Seq<NativeAttribute>, key: Seq<char>) -> int
    decreases attrs.len(),
{
    if attrs.len() == 0 {
        -1
    } else if attrs[0].key@ == key {
        0
    } else if attr_index(attrs.drop_first(), key) < 0 {
        -1
    } else {
        attr_index(attrs.drop_first(), key) + 1
    }
}

/// What `attr_index` finds: the first match, or a proof there is none.
pub proof fn lemma_attr_index(attrs: Seq<NativeAttribute>, key: Seq<char>)
    ensures
        attr_index(attrs, key) >= 0 ==> 0 <= attr_index(attrs, key) < attrs.len()
            && attrs[attr_index(attrs, key)].key@ == key && (forall|j: int|
            0 <= j < attr_index(attrs, key) ==> attrs[j].key@ != key),
        attr_index(attrs, key) < 0 ==> forall|j: int| 0 <= j < attrs.len() ==> attrs[j].key@ != key,
    decreases attrs.len(),
{
    if attrs.len() > 0 && attrs[0].key@ != key {
        lemma_attr_index(attrs.drop_first(), key);
        assert(forall|j: int|
            1 <= j < attrs.len() ==> attrs[j] == attrs.drop_first()[j - 1]);
    }
}

/// What fetching an attribute's raw native value returns: a native error
/// for an unknown or unresponsive element, `NotSupported` when the element
/// has no attribute under the key, and the stored value otherwise.
pub open spec fn spec_raw_attribute(store: NativeStore, id: u64, key: Seq<char>) -> Result<
    NativeValue,
    Error,
> {
    let ei = elem_index(store.elements@, id);
    if ei < 0 {
        Err(Error::Native(AX_ERROR_INVALID_UI_ELEMENT))
    } else if !store.elements@[ei].responsive {
        Err(Error::Native(AX_ERROR_CANNOT_COMPLETE))
    } else {
        let ai = attr_index(store.elements@[ei].attributes@, key);
        if ai < 0 {
            Err(Error::NotSupported)
        } else {
            Ok(store.elements@[ei].attributes@[ai].value)
        }
    }
}

/// What a typed fetch returns: the raw fetch, followed by the codec's tag
/// check against the requested shape, which fails with `UnexpectedType` and
/// never coerces.
pub open spec fn spec_attribute(store: NativeStore, id: u64, key: Seq<char>, kind: ValueKind) -> Result<
    NativeValue,
    Error,
> {
    match spec_raw_attribute(store, id, key) {
        Ok(v) => if kind_matches(v, kind) {
            Ok(v)
        } else {
            Err(Error::UnexpectedType)
        },
        Err(e) => Err(e),
    }
}

/// What the dynamic enumeration of attribute names returns: every key the
/// service currently holds for the element, in the service's order.
pub open spec fn spec_attribute_names(store: NativeStore, id: u64) -> Result<Seq<Seq<char>>, Error> {
    let ei = elem_index(store.elements@, id);
    if ei < 0 {
        Err(Error::Native(AX_ERROR_INVALID_UI_ELEMENT))
    } else if !store.elements@[ei].responsive {
        Err(Error::Native(AX_ERROR_CANNOT_COMPLETE))
    } else {
        Ok(store.elements@[ei].attributes@.map(|i: int, a: NativeAttribute| a.key@))
    }
}

/// The outcome of a write: which error it reports, checked in the
/// service's order — unknown element, unresponsive element, absent
/// attribute, read-only attribute — then the client-side tag check.
pub open spec fn spec_set_result(
    store: NativeStore,
    id: u64,
    key: Seq<char>,
    kind: ValueKind,
    value: NativeValue,
) -> Result<(), Error> {
    let ei = elem_index(store.elements@, id);
    if ei < 0 {
        Err(Error::Native(AX_ERROR_INVALID_UI_ELEMENT))
    } else if !store.elements@[ei].responsive {
        Err(Error::Native(AX_ERROR_CANNOT_COMPLETE))
    } else {
        let ai = attr_index(store.elements@[ei].attributes@, key);
        if ai < 0 {
            Err(Error::NotSupported)
        } else if !store.elements@[ei].attributes@[ai].writable {
            Err(Error::NotSettable)
        } else if !kind_matches(value, kind) {
            Err(Error::UnexpectedType)
        } else {
            Ok(())
        }
    }
}

/// How a successful write changes the store: exactly the addressed
/// attribute's value is replaced; every other attribute, every other
/// element, and all identities and flags are untouched.
pub open spec fn set_updates(
    pre: NativeStore,
    post: NativeStore,
    id: u64,
    key: Seq<char>,
    value: NativeValue,
) -> bool {
    let ei = elem_index(pre.elements@, id);
    let ai = attr_index(pre.elements@[ei].attributes@, key);
    &&& 0 <= ei < pre.elements@.len()
    &&& 0 <= ai < pre.elements@[ei].attributes@.len()
    &&& post.elements@.len() == pre.elements@.len()
    &&& (forall|j: int|
        0 <= j < pre.elements@.len() && j != ei ==> post.elements@[j] == pre.elements@[j])
    &&& post.elements@[ei].id == pre.elements@[ei].id
    &&& post.elements@[ei].responsive == pre.elements@[ei].responsive
    &&& post.elements@[ei].attributes@.len() == pre.elements@[ei].attributes@.len()
    &&& (forall|k: int|
        0 <= k < pre.elements@[ei].attributes@.len() && k != ai
            ==> post.elements@[ei].attributes@[k] == pre.elements@[ei].attributes@[k])
    &&& post.elements@[ei].attributes@[ai].key == pre.elements@[ei].attributes@[ai].key
    &&& post.elements@[ei].attributes@[ai].writable == pre.elements@[ei].attributes@[ai].writable
    &&& post.elements@[ei].attributes@[ai].value == value
}

/// The whole contract of a write: the reported outcome is
/// `spec_set_result`, a success rewrites exactly the addressed value, and
/// a failure leaves the store untouched.
pub open spec fn set_outcome(
    pre: NativeStore,
    post: NativeStore,
    id: u64,
    key: Seq<char>,
    kind: ValueKind,
    value: NativeValue,
    r: Result<(), Error>,
) -> bool {
    &&& r == spec_set_result(pre, id, key, kind, value)
    &&& (r matches Ok(_) ==> set_updates(pre, post, id, key, value))
    &&& (r matches Err(_) ==> post == pre)
}

/// Finds the first element with the given identifier.
fn find_element_index(store: &NativeStore, id: u64) -> (r: Option<usize>)
    ensures
        r matches Some(i) ==> elem_index(store.elements@, id) == i as int,
        r is None ==> elem_index(store.elements@, id) == -1,
{
    let mut i: usize = 0;
    while i < store.elements.len()
        invariant
            i <= store.elements@.len(),
            forall|j: int| 0 <= j < i ==> store.elements@[j].id != id,
        decreases store.elements@.len() - i,
    {
        if store.elements[i].id == id {
            proof {
                lemma_elem_index(store.elements@, id);
            }
            return Some(i);
        }
        i = i + 1;
    }
    proof {
        lemma_elem_index(store.elements@, id);
    }
    None
}

/// Finds the first attribute with the given key.
fn find_attr_index(attrs: &Vec<NativeAttribute>, key: &String) -> (r: Option<usize>)
    ensures
        r matches Some(i) ==> attr_index(attrs@, key@) == i as int,
        r is None ==> attr_index(attrs@, key@) == -1,
{
    let mut i: usize = 0;
    while i < attrs.len()
        invariant
            i <= attrs@.len(),
            forall|j: int| 0 <= j < i ==> attrs@[j].key@ != key@,
        decreases attrs@.len() - i,
    {
        if attrs[i].key == *key {
            proof {
                lemma_attr_index(attrs@, key@);
            }
            return Some(i);
        }
        i = i + 1;
    }
    proof {
        lemma_attr_index(attrs@, key@);
    }
    None
}

/// Checks the codec's tag test in executable form.
fn value_matches_kind(v: &NativeValue, kind: ValueKind) -> (r: bool)
    ensures
        r == kind_matches(*v, kind),
{
    match kind {
        ValueKind::Text => matches!(v, NativeValue::Text(_)),
        ValueKind::Boolean => matches!(v, NativeValue::Boolean(_)),
        ValueKind::Number => matches!(v, NativeValue::Number(_)),
        ValueKind::Point => matches!(v, NativeValue::BoxedPoint(_)),
        ValueKind::Size => matches!(v, NativeValue::BoxedSize(_)),
        ValueKind::Rect => matches!(v, NativeValue::BoxedRect(_)),
        ValueKind::Element => matches!(v, NativeValue::ElementRef(_)),
        ValueKind::ElementArray => match v {
            NativeValue::Array(items) => {
                let mut i: usize = 0;
                while i < items.len()
                    invariant
                        kind == ValueKind::ElementArray,
                        *v == NativeValue::Array(*items),
                        i <= items@.len(),
                        forall|j: int|
                            0 <= j < i ==> (#[trigger] items@[j]) matches NativeValue::ElementRef(
                                _,
                            ),
                    decreases items@.len() - i,
                {
                    match &items[i] {
                        NativeValue::ElementRef(_) => {
                        },
                        _ => {
                            proof {
                                let k = i as int;
                                assert(0 <= k < items@.len());
                                assert(!((#[trigger] items@[k]) matches NativeValue::ElementRef(
                                    _,
                                )));
                            }
                            return false;
                        },
                    }
                    i = i + 1;
                }
                true
            },
            _ => false,
        },
        ValueKind::AnyArray => matches!(v, NativeValue::Array(_)),
        ValueKind::Any => true,
    }
}

impl AXUIElement {
    /// Fetches the raw native value stored under a key, untyped.
    pub fn raw_attribute<'a>(&self, store: &'a NativeStore, key: &String) -> (r: Result<
        &'a NativeValue,
        Error,
    >)
        ensures
            r matches Ok(v) ==> spec_raw_attribute(*store, self.id, key@) == Ok::<
                NativeValue,
                Error,
            >(*v),
            r matches Err(e) ==> spec_raw_attribute(*store, self.id, key@) == Err::<
                NativeValue,
                Error,
            >(e),
    {
        let ei = match find_element_index(store, self.id) {
            Some(i) => i,
            None => {
                return Err(Error::Native(AX_ERROR_INVALID_UI_ELEMENT));
            },
        };
        proof {
            lemma_elem_index(store.elements@, self.id);
        }
        let elem = &store.elements[ei];
        if !elem.responsive {
            return Err(Error::Native(AX_ERROR_CANNOT_COMPLETE));
        }
        let ai = match find_attr_index(&elem.attributes, key) {
            Some(i) => i,
            None => {
                return Err(Error::NotSupported);
            },
        };
        proof {
            lemma_attr_index(elem.attributes@, key@);
        }
        Ok(&elem.attributes[ai].value)
    }

    /// Fetches the native value for the descriptor's key, then checks its
    /// runtime tag against the descriptor's expected shape.
    pub fn attribute<'a>(&self, store: &'a NativeStore, attr: &AXAttribute) -> (r: Result<
        &'a NativeValue,
        Error,
    >)
        ensures
            r matches Ok(v) ==> spec_attribute(*store, self.id, attr.key@, attr.kind) == Ok::<
                NativeValue,
                Error,
            >(*v),
            r matches Err(e) ==> spec_attribute(*store, self.id, attr.key@, attr.kind) == Err::<
                NativeValue,
                Error,
            >(e),
    {
        match self.raw_attribute(store, &attr.key) {
            Ok(v) => {
                if value_matches_kind(v, attr.kind) {
                    Ok(v)
                } else {
                    Err(Error::UnexpectedType)
                }
            },
            Err(e) => Err(e),
        }
    }

    /// Encodes and writes a value under the descriptor's key. The service
    /// decides `NotSettable`; a success replaces exactly the addressed
    /// value and nothing else.
    pub fn set_attribute(&self, store: &mut NativeStore, attr: &AXAttribute, value: NativeValue) -> (r:
        Result<(), Error>)
        ensures
            set_outcome(*old(store), *final(store), self.id, attr.key@, attr.kind, value, r),
    {
        let ei = match find_element_index(store, self.id) {
            Some(i) => i,
            None => {
                return Err(Error::Native(AX_ERROR_INVALID_UI_ELEMENT));
            },
        };
        proof {
            lemma_elem_index(store.elements@, self.id);
        }
        if !store.elements[ei].responsive {
            return Err(Error::Native(AX_ERROR_CANNOT_COMPLETE));
        }
        let ai = match find_attr_index(&store.elements[ei].attributes, &attr.key) {
            Some(i) => i,
            None => {
                return Err(Error::NotSupported);
            },
        };
        proof {
            lemma_attr_index(store.elements@[ei as int].attributes@, attr.key@);
        }
        if !store.elements[ei].attributes[ai].writable {
            return Err(Error::NotSettable);
        }
        if !value_matches_kind(&value, attr.kind) {
            return Err(Error::UnexpectedType);
        }
        store.elements[ei].attributes[ai].value = value;
        Ok(())
    }

    /// Enumerates the full current set of attribute keys the service
    /// reports for this element, in the service's order. The set varies by
    /// element and cannot be known statically.
    pub fn attribute_names(&self, store: &NativeStore) -> (r: Result<Vec<String>, Error>)
        ensures
            r matches Ok(names) ==> (spec_attribute_names(*store, self.id) matches Ok(ks)
                && names@.map(|i: int, s: String| s@) =~~= ks),
            r matches Err(e) ==> spec_attribute_names(*store, self.id) == Err::<
                Seq<Seq<char>>,
                Error,
            >(e),
    {
        let ei = match find_element_index(store, self.id) {
            Some(i) => i,
            None => {
                return Err(Error::Native(AX_ERROR_INVALID_UI_ELEMENT));
            },
        };
        proof {
            lemma_elem_index(store.elements@, self.id);
        }
        let elem = &store.elements[ei];
        if !elem.responsive {
            return Err(Error::Native(AX_ERROR_CANNOT_COMPLETE));
        }
        let mut names: Vec<String> = Vec::new();
        let mut i: usize = 0;
        while i < elem.attributes.len()
            invariant
                i <= elem.attributes@.len(),
                names@.len() == i,
                forall|j: int| 0 <= j < i ==> (#[trigger] names@[j])@ == elem.attributes@[j].key@,
            decreases elem.attributes@.len() - i,
        {
            names.push(elem.attributes[i].key.clone());
            i = i + 1;
        }
        Ok(names)
    }
}

/// The interchangeability law: attribute access is a function of the
/// descriptor's native key and expected shape alone, so two descriptors
/// built from the same native key — however constructed — produce
/// identical reads and identical writes on every element of every store.
pub proof fn lemma_same_key_descriptors_interchangeable(
    store: NativeStore,
    id: u64,
    a: AXAttribute,
    b: AXAttribute,
    value: NativeValue,
)
    requires
        a.key@ == b.key@,
        a.kind == b.kind,
    ensures
        spec_attribute(store, id, a.key@, a.kind) == spec_attribute(store, id, b.key@, b.kind),
        spec_set_result(store, id, a.key@, a.kind, value) == spec_set_result(
            store,
            id,
            b.key@,
            b.kind,
            value,
        ),
{
}

} // verus!
