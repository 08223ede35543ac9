//! A strongly typed layer over a dynamically typed, string keyed
//! object-introspection tree of UI elements, together with a visitor driven
//! depth-first walker over that tree.
//!
//! The native accessibility service itself (attribute storage, live UI state)
//! sits behind a process boundary and is modelled here as explicit data: a
//! [`NativeStore`](ui_element::NativeStore) holds, per element, the attribute
//! table the service would report. Everything above that boundary — the value
//! codec, the descriptor registry, the typed accessor surface, the diagnostic
//! renderer and the traversal engine — is verified.

use vstd::prelude::*;

pub mod accessors;
pub mod attribute;
pub mod debug;
pub mod printy;
pub mod render;
pub mod tree_walker;
pub mod ui_element;
pub mod value;

verus! {

/// Failures reported by the attribute access layer.
#[derive(Clone, Copy, PartialEq, Eq, Structural, Debug)]
pub enum Error {
    /// The element does not have the requested attribute at all.
    NotSupported,
    /// The attribute is present but its native value does not match the
    /// statically requested shape.
    UnexpectedType,
    /// A write was attempted on an attribute the service reports as read only.
    NotSettable,
    /// Any other service level failure (stale element reference, remote
    /// process unresponsive), carrying the native error code.
    Native(i32),
}

} // verus!
