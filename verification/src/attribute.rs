//! Attribute descriptors: client-side, statically typed bindings from a
//! semantic attribute name to its native string key and its expected value
//! shape.
//!
//! Descriptors are immutable and cheap to copy; two descriptors denote the
//! same attribute exactly when their native keys are equal, however they
//! were constructed. One constructor exists per well-known attribute; an
//! ad hoc descriptor for a discovered attribute name carries the dynamic
//! shape [`ValueKind::Any`].

use vstd::prelude::*;
use crate::value::ValueKind;

verus! {

/// A descriptor: a native key plus the statically expected value shape.
#[derive(Clone, Debug)]
pub struct AXAttribute {
    pub key: String,
    pub kind: ValueKind,
}

impl AXAttribute {
    /// An ad hoc descriptor for an arbitrary discovered attribute name.
    /// Its expected shape is dynamic, so every native value decodes.
    pub fn new(name: &str) -> (r: AXAttribute)
        ensures
            r.key@ == name@,
            r.kind == ValueKind::Any,
    {
        AXAttribute { key: String::from_str(name), kind: ValueKind::Any }
    }

    /// The native key this descriptor binds to.
    pub fn native_key(&self) -> (r: &String)
        ensures
            r@ == self.key@,
    {
        &self.key
    }

    /// Descriptor identity: two descriptors denote the same attribute
    /// exactly when their native keys are equal.
    pub fn same_attribute(&self, other: &AXAttribute) -> (r: bool)
        ensures
            r == (self.key@ == other.key@),
    {
        self.key == other.key
    }

    pub fn role() -> (r: AXAttribute)
        ensures
            r.key@ == "AXRole"@ && r.kind == ValueKind::Text,
    {
        AXAttribute { key: String::from_str("AXRole"), kind: ValueKind::Text }
    }

    pub fn subrole() -> (r: AXAttribute)
        ensures
            r.key@ == "AXSubrole"@ && r.kind == ValueKind::Text,
    {
        AXAttribute { key: String::from_str("AXSubrole"), kind: ValueKind::Text }
    }

    pub fn allowed_values() -> (r: AXAttribute)
        ensures
            r.key@ == "AXAllowedValues"@ && r.kind == ValueKind::AnyArray,
    {
        AXAttribute { key: String::from_str("AXAllowedValues"), kind: ValueKind::AnyArray }
    }

    pub fn children() -> (r: AXAttribute)
        ensures
            r.key@ == "AXChildren"@ && r.kind == ValueKind::ElementArray,
    {
        AXAttribute { key: String::from_str("AXChildren"), kind: ValueKind::ElementArray }
    }

    pub fn contents() -> (r: AXAttribute)
        ensures
            r.key@ == "AXContents"@ && r.kind == ValueKind::Element,
    {
        AXAttribute { key: String::from_str("AXContents"), kind: ValueKind::Element }
    }

    pub fn description() -> (r: AXAttribute)
        ensures
            r.key@ == "AXDescription"@ && r.kind == ValueKind::Text,
    {
        AXAttribute { key: String::from_str("AXDescription"), kind: ValueKind::Text }
    }

    pub fn element_busy() -> (r: AXAttribute)
        ensures
            r.key@ == "AXElementBusy"@ && r.kind == ValueKind::Boolean,
    {
        AXAttribute { key: String::from_str("AXElementBusy"), kind: ValueKind::Boolean }
    }

    pub fn enabled() -> (r: AXAttribute)
        ensures
            r.key@ == "AXEnabled"@ && r.kind == ValueKind::Boolean,
    {
        AXAttribute { key: String::from_str("AXEnabled"), kind: ValueKind::Boolean }
    }

    pub fn focused() -> (r: AXAttribute)
        ensures
            r.key@ == "AXFocused"@ && r.kind == ValueKind::Boolean,
    {
        AXAttribute { key: String::from_str("AXFocused"), kind: ValueKind::Boolean }
    }

    pub fn frame() -> (r: AXAttribute)
        ensures
            r.key@ == "AXFrame"@ && r.kind == ValueKind::Rect,
    {
        AXAttribute { key: String::from_str("AXFrame"), kind: ValueKind::Rect }
    }

    pub fn help() -> (r: AXAttribute)
        ensures
            r.key@ == "AXHelp"@ && r.kind == ValueKind::Text,
    {
        AXAttribute { key: String::from_str("AXHelp"), kind: ValueKind::Text }
    }

    pub fn identifier() -> (r: AXAttribute)
        ensures
            r.key@ == "AXIdentifier"@ && r.kind == ValueKind::Text,
    {
        AXAttribute { key: String::from_str("AXIdentifier"), kind: ValueKind::Text }
    }

    pub fn label_value() -> (r: AXAttribute)
        ensures
            r.key@ == "AXLabelValue"@ && r.kind == ValueKind::Text,
    {
        AXAttribute { key: String::from_str("AXLabelValue"), kind: ValueKind::Text }
    }

    pub fn main() -> (r: AXAttribute)
        ensures
            r.key@ == "AXMain"@ && r.kind == ValueKind::Boolean,
    {
        AXAttribute { key: String::from_str("AXMain"), kind: ValueKind::Boolean }
    }

    pub fn max_value() -> (r: AXAttribute)
        ensures
            r.key@ == "AXMaxValue"@ && r.kind == ValueKind::Any,
    {
        AXAttribute { key: String::from_str("AXMaxValue"), kind: ValueKind::Any }
    }

    pub fn min_value() -> (r: AXAttribute)
        ensures
            r.key@ == "AXMinValue"@ && r.kind == ValueKind::Any,
    {
        AXAttribute { key: String::from_str("AXMinValue"), kind: ValueKind::Any }
    }

    pub fn minimized() -> (r: AXAttribute)
        ensures
            r.key@ == "AXMinimized"@ && r.kind == ValueKind::Boolean,
    {
        AXAttribute { key: String::from_str("AXMinimized"), kind: ValueKind::Boolean }
    }

    pub fn parent() -> (r: AXAttribute)
        ensures
            r.key@ == "AXParent"@ && r.kind == ValueKind::Element,
    {
        AXAttribute { key: String::from_str("AXParent"), kind: ValueKind::Element }
    }

    pub fn placeholder_value() -> (r: AXAttribute)
        ensures
            r.key@ == "AXPlaceholderValue"@ && r.kind == ValueKind::Text,
    {
        AXAttribute { key: String::from_str("AXPlaceholderValue"), kind: ValueKind::Text }
    }

    pub fn position() -> (r: AXAttribute)
        ensures
            r.key@ == "AXPosition"@ && r.kind == ValueKind::Point,
    {
        AXAttribute { key: String::from_str("AXPosition"), kind: ValueKind::Point }
    }

    pub fn role_description() -> (r: AXAttribute)
        ensures
            r.key@ == "AXRoleDescription"@ && r.kind == ValueKind::Text,
    {
        AXAttribute { key: String::from_str("AXRoleDescription"), kind: ValueKind::Text }
    }

    pub fn selected_children() -> (r: AXAttribute)
        ensures
            r.key@ == "AXSelectedChildren"@ && r.kind == ValueKind::ElementArray,
    {
        AXAttribute { key: String::from_str("AXSelectedChildren"), kind: ValueKind::ElementArray }
    }

    pub fn size() -> (r: AXAttribute)
        ensures
            r.key@ == "AXSize"@ && r.kind == ValueKind::Size,
    {
        AXAttribute { key: String::from_str("AXSize"), kind: ValueKind::Size }
    }

    pub fn title() -> (r: AXAttribute)
        ensures
            r.key@ == "AXTitle"@ && r.kind == ValueKind::Text,
    {
        AXAttribute { key: String::from_str("AXTitle"), kind: ValueKind::Text }
    }

    pub fn top_level_ui_element() -> (r: AXAttribute)
        ensures
            r.key@ == "AXTopLevelUIElement"@ && r.kind == ValueKind::Element,
    {
        AXAttribute { key: String::from_str("AXTopLevelUIElement"), kind: ValueKind::Element }
    }

    pub fn value() -> (r: AXAttribute)
        ensures
            r.key@ == "AXValue"@ && r.kind == ValueKind::Any,
    {
        AXAttribute { key: String::from_str("AXValue"), kind: ValueKind::Any }
    }

    pub fn value_description() -> (r: AXAttribute)
        ensures
            r.key@ == "AXValueDescription"@ && r.kind == ValueKind::Text,
    {
        AXAttribute { key: String::from_str("AXValueDescription"), kind: ValueKind::Text }
    }

    pub fn value_increment() -> (r: AXAttribute)
        ensures
            r.key@ == "AXValueIncrement"@ && r.kind == ValueKind::Any,
    {
        AXAttribute { key: String::from_str("AXValueIncrement"), kind: ValueKind::Any }
    }

    pub fn visible_children() -> (r: AXAttribute)
        ensures
            r.key@ == "AXVisibleChildren"@ && r.kind == ValueKind::ElementArray,
    {
        AXAttribute { key: String::from_str("AXVisibleChildren"), kind: ValueKind::ElementArray }
    }

    pub fn window() -> (r: AXAttribute)
        ensures
            r.key@ == "AXWindow"@ && r.kind == ValueKind::Element,
    {
        AXAttribute { key: String::from_str("AXWindow"), kind: ValueKind::Element }
    }

    pub fn windows() -> (r: AXAttribute)
        ensures
            r.key@ == "AXWindows"@ && r.kind == ValueKind::ElementArray,
    {
        AXAttribute { key: String::from_str("AXWindows"), kind: ValueKind::ElementArray }
    }
}

} // verus!
