//! The value codec: conversions between the native service's opaque,
//! runtime-typed value representation and statically typed domain values.
//!
//! The native side is modelled by [`NativeValue`], a closed set of variants
//! mirroring what the service can hand back: text, booleans, numbers,
//! geometry carried inside a tagged "boxed value" wrapper, element
//! references, arrays, and an untyped fallback. Decoding checks the runtime
//! tag against the statically requested shape and fails with
//! [`DecodeError::TypeMismatch`] when they disagree; it never coerces.

use vstd::prelude::*;

verus! {

/// A point in the native geometry space, carried boxed by the service.
#[derive(Clone, Copy, PartialEq, Eq, Structural, Debug)]
pub struct Point {
    pub x: i64,
    pub y: i64,
}

/// An extent in the native geometry space, carried boxed by the service.
#[derive(Clone, Copy, PartialEq, Eq, Structural, Debug)]
pub struct Size {
    pub width: i64,
    pub height: i64,
}

/// A rectangle in the native geometry space, carried boxed by the service.
#[derive(Clone, Copy, PartialEq, Eq, Structural, Debug)]
pub struct Rect {
    pub x: i64,
    pub y: i64,
    pub width: i64,
    pub height: i64,
}

/// Decoding failures: the native tag did not match the requested shape.
#[derive(Clone, Copy, PartialEq, Eq, Structural, Debug)]
pub enum DecodeError {
    TypeMismatch,
}

/// The native service's runtime-typed value representation.
///
/// Geometry is a tagged payload inside a boxed wrapper, so each geometry
/// kind is its own variant here; the tag check on unboxing is the match on
/// the variant. `Opaque` stands for any other native object, identified
/// only by an uninterpreted token.
#[derive(Debug)]
pub enum NativeValue {
    Text(String),
    Boolean(bool),
    Number(i64),
    BoxedPoint(Point),
    BoxedSize(Size),
    BoxedRect(Rect),
    ElementRef(u64),
    Array(Vec<NativeValue>),
    Opaque(u64),
}

/// The statically requested shape of an attribute's value.
#[derive(Clone, Copy, PartialEq, Eq, Structural, Debug)]
pub enum ValueKind {
    Text,
    Boolean,
    Number,
    Point,
    Size,
    Rect,
    Element,
    ElementArray,
    AnyArray,
    Any,
}

/// Whether a native value carries the requested shape. `Any` accepts
/// everything; `AnyArray` accepts any array; `ElementArray` demands an
/// array of element references only.
pub open spec fn kind_matches(v: NativeValue, k: ValueKind) -> bool {
    match k {
        ValueKind::Text => v matches NativeValue::Text(_),
        ValueKind::Boolean => v matches NativeValue::Boolean(_),
        ValueKind::Number => v matches NativeValue::Number(_),
        ValueKind::Point => v matches NativeValue::BoxedPoint(_),
        ValueKind::Size => v matches NativeValue::BoxedSize(_),
        ValueKind::Rect => v matches NativeValue::BoxedRect(_),
        ValueKind::Element => v matches NativeValue::ElementRef(_),
        ValueKind::ElementArray => match v {
            NativeValue::Array(items) => forall|i: int|
                0 <= i < items@.len() ==> (#[trigger] items@[i]) matches NativeValue::ElementRef(_),
            _ => false,
        },
        ValueKind::AnyArray => v matches NativeValue::Array(_),
        ValueKind::Any => true,
    }
}

/// The element identifier inside an `ElementRef`, zero elsewhere.
pub open spec fn spec_element_id(v: NativeValue) -> u64 {
    match v {
        NativeValue::ElementRef(id) => id,
        _ => 0u64,
    }
}

/// What decoding as text returns, as a function of the native value.
pub open spec fn spec_decode_text(v: NativeValue) -> Result<Seq<char>, DecodeError> {
    match v {
        NativeValue::Text(s) => Ok(s@),
        _ => Err(DecodeError::TypeMismatch),
    }
}

/// What decoding as a boolean returns. No truthiness coercion: numbers
/// never decode as booleans.
pub open spec fn spec_decode_boolean(v: NativeValue) -> Result<bool, DecodeError> {
    match v {
        NativeValue::Boolean(b) => Ok(b),
        _ => Err(DecodeError::TypeMismatch),
    }
}

/// What decoding as a number returns.
pub open spec fn spec_decode_number(v: NativeValue) -> Result<i64, DecodeError> {
    match v {
        NativeValue::Number(n) => Ok(n),
        _ => Err(DecodeError::TypeMismatch),
    }
}

/// What unboxing as a point returns: the boxed payload tag must be the
/// point tag.
pub open spec fn spec_decode_point(v: NativeValue) -> Result<Point, DecodeError> {
    match v {
        NativeValue::BoxedPoint(p) => Ok(p),
        _ => Err(DecodeError::TypeMismatch),
    }
}

/// What unboxing as a size returns.
pub open spec fn spec_decode_size(v: NativeValue) -> Result<Size, DecodeError> {
    match v {
        NativeValue::BoxedSize(s) => Ok(s),
        _ => Err(DecodeError::TypeMismatch),
    }
}

/// What unboxing as a rectangle returns.
pub open spec fn spec_decode_rect(v: NativeValue) -> Result<Rect, DecodeError> {
    match v {
        NativeValue::BoxedRect(r) => Ok(r),
        _ => Err(DecodeError::TypeMismatch),
    }
}

/// What decoding as an element reference returns.
pub open spec fn spec_decode_element(v: NativeValue) -> Result<u64, DecodeError> {
    match v {
        NativeValue::ElementRef(id) => Ok(id),
        _ => Err(DecodeError::TypeMismatch),
    }
}

/// What decoding as an array of element references returns: the identifiers
/// in native order, never sorted or deduplicated. It fails if the value is
/// not an array or if any item is not an element reference.
pub open spec fn spec_decode_element_array(v: NativeValue) -> Result<Seq<u64>, DecodeError> {
    match v {
        NativeValue::Array(items) => if kind_matches(v, ValueKind::ElementArray) {
            Ok(items@.map(|i: int, x: NativeValue| spec_element_id(x)))
        } else {
            Err(DecodeError::TypeMismatch)
        },
        _ => Err(DecodeError::TypeMismatch),
    }
}

/// Encodes text into the native representation.
pub fn encode_text(s: String) -> (r: NativeValue)
    ensures
        r == NativeValue::Text(s),
{
    NativeValue::Text(s)
}

/// Encodes a boolean into the native representation, with no numeric
/// detour.
pub fn encode_boolean(b: bool) -> (r: NativeValue)
    ensures
        r == NativeValue::Boolean(b),
{
    NativeValue::Boolean(b)
}

/// Encodes a number into the native representation.
pub fn encode_number(n: i64) -> (r: NativeValue)
    ensures
        r == NativeValue::Number(n),
{
    NativeValue::Number(n)
}

/// Boxes a point with the point payload tag.
pub fn encode_point(p: Point) -> (r: NativeValue)
    ensures
        r == NativeValue::BoxedPoint(p),
{
    NativeValue::BoxedPoint(p)
}

/// Boxes a size with the size payload tag.
pub fn encode_size(s: Size) -> (r: NativeValue)
    ensures
        r == NativeValue::BoxedSize(s),
{
    NativeValue::BoxedSize(s)
}

/// Boxes a rectangle with the rectangle payload tag.
pub fn encode_rect(r0: Rect) -> (r: NativeValue)
    ensures
        r == NativeValue::BoxedRect(r0),
{
    NativeValue::BoxedRect(r0)
}

/// Encodes an element reference into the native representation.
pub fn encode_element(id: u64) -> (r: NativeValue)
    ensures
        r == NativeValue::ElementRef(id),
{
    NativeValue::ElementRef(id)
}

/// Encodes a sequence of element references as a native array, preserving
/// order.
pub fn encode_element_array(ids: &Vec<u64>) -> (r: NativeValue)
    ensures
        r matches NativeValue::Array(items) && items@.len() == ids@.len() && forall|i: int|
            0 <= i < ids@.len() ==> items@[i] == NativeValue::ElementRef(ids@[i]),
{
    let mut items: Vec<NativeValue> = Vec::new();
    let mut i: usize = 0;
    while i < ids.len()
        invariant
            i <= ids@.len(),
            items@.len() == i,
            forall|j: int| 0 <= j < i ==> items@[j] == NativeValue::ElementRef(ids@[j]),
        decreases ids@.len() - i,
    {
        items.push(NativeValue::ElementRef(ids[i]));
        i = i + 1;
    }
    NativeValue::Array(items)
}

/// Decodes text; fails on any other native tag.
pub fn decode_text(v: &NativeValue) -> (r: Result<String, DecodeError>)
    ensures
        r matches Ok(s) ==> spec_decode_text(*v) == Ok::<Seq<char>, DecodeError>(s@),
        r matches Err(e) ==> spec_decode_text(*v) == Err::<Seq<char>, DecodeError>(e),
{
    match v {
        NativeValue::Text(s) => Ok(s.clone()),
        _ => Err(DecodeError::TypeMismatch),
    }
}

/// Decodes a boolean; fails on any other native tag.
pub fn decode_boolean(v: &NativeValue) -> (r: Result<bool, DecodeError>)
    ensures
        r == spec_decode_boolean(*v),
{
    match v {
        NativeValue::Boolean(b) => Ok(*b),
        _ => Err(DecodeError::TypeMismatch),
    }
}

/// Decodes a number; fails on any other native tag, booleans included.
pub fn decode_number(v: &NativeValue) -> (r: Result<i64, DecodeError>)
    ensures
        r == spec_decode_number(*v),
{
    match v {
        NativeValue::Number(n) => Ok(*n),
        _ => Err(DecodeError::TypeMismatch),
    }
}

/// Unboxes a point; fails if the boxed payload tag is not the point tag.
pub fn decode_point(v: &NativeValue) -> (r: Result<Point, DecodeError>)
    ensures
        r == spec_decode_point(*v),
{
    match v {
        NativeValue::BoxedPoint(p) => Ok(*p),
        _ => Err(DecodeError::TypeMismatch),
    }
}

/// Unboxes a size; fails if the boxed payload tag is not the size tag.
pub fn decode_size(v: &NativeValue) -> (r: Result<Size, DecodeError>)
    ensures
        r == spec_decode_size(*v),
{
    match v {
        NativeValue::BoxedSize(s) => Ok(*s),
        _ => Err(DecodeError::TypeMismatch),
    }
}

/// Unboxes a rectangle; fails if the boxed payload tag is not the
/// rectangle tag.
pub fn decode_rect(v: &NativeValue) -> (r: Result<Rect, DecodeError>)
    ensures
        r == spec_decode_rect(*v),
{
    match v {
        NativeValue::BoxedRect(rc) => Ok(*rc),
        _ => Err(DecodeError::TypeMismatch),
    }
}

/// Decodes an element reference; fails on any other native tag.
pub fn decode_element(v: &NativeValue) -> (r: Result<u64, DecodeError>)
    ensures
        r == spec_decode_element(*v),
{
    match v {
        NativeValue::ElementRef(id) => Ok(*id),
        _ => Err(DecodeError::TypeMismatch),
    }
}

/// Decodes an array of element references, preserving native order.
pub fn decode_element_array(v: &NativeValue) -> (r: Result<Vec<u64>, DecodeError>)
    ensures
        r matches Ok(ids) ==> spec_decode_element_array(*v) == Ok::<Seq<u64>, DecodeError>(ids@),
        r matches Err(e) ==> spec_decode_element_array(*v) == Err::<Seq<u64>, DecodeError>(e),
{
    match v {
        NativeValue::Array(items) => {
            let mut ids: Vec<u64> = Vec::new();
            let mut i: usize = 0;
            while i < items.len()
                invariant
                    *v == NativeValue::Array(*items),
                    i <= items@.len(),
                    ids@.len() == i,
                    forall|j: int|
                        0 <= j < i ==> ((#[trigger] items@[j]) matches NativeValue::ElementRef(_)
                            && ids@[j] == spec_element_id(items@[j])),
                decreases items@.len() - i,
            {
                match &items[i] {
                    NativeValue::ElementRef(id) => {
                        ids.push(*id);
                    },
                    _ => {
                        proof {
                            let k = i as int;
                            assert(0 <= k < items@.len());
                            assert(!((#[trigger] items@[k]) matches NativeValue::ElementRef(_)));
                            assert(!kind_matches(*v, ValueKind::ElementArray));
                        }
                        return Err(DecodeError::TypeMismatch);
                    },
                }
                i = i + 1;
            }
            proof {
                assert(kind_matches(*v, ValueKind::ElementArray));
                assert(ids@ =~= items@.map(|k: int, x: NativeValue| spec_element_id(x)));
            }
            Ok(ids)
        },
        _ => Err(DecodeError::TypeMismatch),
    }
}

/// The round-trip law: encoding a value of each supported shape and
/// decoding it with the same expected shape gives back the original.
pub proof fn lemma_encode_decode_round_trip(
    s: String,
    b: bool,
    n: i64,
    p: Point,
    z: Size,
    rc: Rect,
    id: u64,
)
    ensures
        spec_decode_text(NativeValue::Text(s)) == Ok::<Seq<char>, DecodeError>(s@),
        spec_decode_boolean(NativeValue::Boolean(b)) == Ok::<bool, DecodeError>(b),
        spec_decode_number(NativeValue::Number(n)) == Ok::<i64, DecodeError>(n),
        spec_decode_point(NativeValue::BoxedPoint(p)) == Ok::<Point, DecodeError>(p),
        spec_decode_size(NativeValue::BoxedSize(z)) == Ok::<Size, DecodeError>(z),
        spec_decode_rect(NativeValue::BoxedRect(rc)) == Ok::<Rect, DecodeError>(rc),
        spec_decode_element(NativeValue::ElementRef(id)) == Ok::<u64, DecodeError>(id),
{
}

/// The array round-trip law: an array built from element identifiers
/// decodes back to exactly those identifiers, in the same order.
pub proof fn lemma_element_array_round_trip(items: Vec<NativeValue>, ids: Seq<u64>)
    requires
        items@.len() == ids.len(),
        forall|i: int| 0 <= i < ids.len() ==> items@[i] == NativeValue::ElementRef(ids[i]),
    ensures
        spec_decode_element_array(NativeValue::Array(items)) == Ok::<Seq<u64>, DecodeError>(ids),
{
    assert(kind_matches(NativeValue::Array(items), ValueKind::ElementArray));
    assert(items@.map(|i: int, x: NativeValue| spec_element_id(x)) =~= ids);
}

/// The mismatch law: decoding a native value whose tag does not carry the
/// requested shape always fails with a type mismatch and never yields a
/// default value.
pub proof fn lemma_decode_mismatch_fails(v: NativeValue)
    ensures
        !kind_matches(v, ValueKind::Text) ==> spec_decode_text(v) == Err::<
            Seq<char>,
            DecodeError,
        >(DecodeError::TypeMismatch),
        !kind_matches(v, ValueKind::Boolean) ==> spec_decode_boolean(v) == Err::<
            bool,
            DecodeError,
        >(DecodeError::TypeMismatch),
        !kind_matches(v, ValueKind::Number) ==> spec_decode_number(v) == Err::<
            i64,
            DecodeError,
        >(DecodeError::TypeMismatch),
        !kind_matches(v, ValueKind::Point) ==> spec_decode_point(v) == Err::<
            Point,
            DecodeError,
        >(DecodeError::TypeMismatch),
        !kind_matches(v, ValueKind::Size) ==> spec_decode_size(v) == Err::<
            Size,
            DecodeError,
        >(DecodeError::TypeMismatch),
        !kind_matches(v, ValueKind::Rect) ==> spec_decode_rect(v) == Err::<
            Rect,
            DecodeError,
        >(DecodeError::TypeMismatch),
        !kind_matches(v, ValueKind::Element) ==> spec_decode_element(v) == Err::<
            u64,
            DecodeError,
        >(DecodeError::TypeMismatch),
        !kind_matches(v, ValueKind::ElementArray) ==> spec_decode_element_array(v) == Err::<
            Seq<u64>,
            DecodeError,
        >(DecodeError::TypeMismatch),
{
}

} // verus!
