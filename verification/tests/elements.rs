use accessibility::attribute::AXAttribute;
use accessibility::ui_element::{
    AXUIElement, NativeAttribute, NativeElement, NativeStore, AX_ERROR_CANNOT_COMPLETE,
    AX_ERROR_INVALID_UI_ELEMENT,
};
use accessibility::value::{NativeValue, Point, Rect, Size};
use accessibility::Error;

fn attr(key: &str, value: NativeValue, writable: bool) -> NativeAttribute {
    NativeAttribute { key: String::from(key), value, writable }
}

fn sample_store() -> NativeStore {
    NativeStore {
        elements: vec![
            NativeElement {
                id: 1,
                attributes: vec![
                    attr("AXRole", NativeValue::Text(String::from("AXWindow")), false),
                    attr("AXTitle", NativeValue::Text(String::from("Main")), false),
                    attr("AXMain", NativeValue::Boolean(true), true),
                    attr(
                        "AXFrame",
                        NativeValue::BoxedRect(Rect { x: 0, y: 22, width: 800, height: 578 }),
                        false,
                    ),
                    attr(
                        "AXPosition",
                        NativeValue::BoxedPoint(Point { x: 0, y: 22 }),
                        true,
                    ),
                    attr(
                        "AXSize",
                        NativeValue::BoxedSize(Size { width: 800, height: 578 }),
                        true,
                    ),
                    attr(
                        "AXChildren",
                        NativeValue::Array(vec![NativeValue::ElementRef(2)]),
                        false,
                    ),
                    attr("AXValue", NativeValue::Number(5), true),
                ],
                responsive: true,
            },
            NativeElement {
                id: 2,
                attributes: vec![
                    attr("AXRole", NativeValue::Text(String::from("AXButton")), false),
                    attr("AXEnabled", NativeValue::Boolean(true), false),
                ],
                responsive: true,
            },
            NativeElement { id: 3, attributes: vec![], responsive: false },
        ],
    }
}

#[test]
fn typed_getters_read_the_store() {
    let store = sample_store();
    let window = AXUIElement { id: 1 };
    assert_eq!(window.role(&store), Ok(String::from("AXWindow")));
    assert_eq!(window.title(&store), Ok(String::from("Main")));
    assert_eq!(window.main(&store), Ok(true));
    assert_eq!(window.frame(&store), Ok(Rect { x: 0, y: 22, width: 800, height: 578 }));
    assert_eq!(window.position(&store), Ok(Point { x: 0, y: 22 }));
    assert_eq!(window.size(&store), Ok(Size { width: 800, height: 578 }));
    let children = window.children(&store).unwrap();
    assert_eq!(children.len(), 1);
    assert_eq!(children[0], AXUIElement { id: 2 });
}

#[test]
fn absent_attribute_is_not_supported() {
    let store = sample_store();
    let window = AXUIElement { id: 1 };
    assert_eq!(window.subrole(&store), Err(Error::NotSupported));
    assert_eq!(window.help(&store), Err(Error::NotSupported));
}

#[test]
fn wrong_native_tag_is_unexpected_type() {
    let store = sample_store();
    let window = AXUIElement { id: 1 };
    // `AXMain` holds a boolean; reading it as text must fail, not coerce.
    let as_text = window.text_attribute(
        &store,
        &AXAttribute { key: String::from("AXMain"), kind: accessibility::value::ValueKind::Text },
    );
    assert_eq!(as_text, Err(Error::UnexpectedType));
}

#[test]
fn unknown_element_reports_native_code() {
    let store = sample_store();
    let ghostly = AXUIElement { id: 77 };
    assert_eq!(ghostly.role(&store), Err(Error::Native(AX_ERROR_INVALID_UI_ELEMENT)));
}

#[test]
fn unresponsive_element_reports_native_code() {
    let store = sample_store();
    let stale = AXUIElement { id: 3 };
    assert_eq!(stale.role(&store), Err(Error::Native(AX_ERROR_CANNOT_COMPLETE)));
    assert!(stale.attribute_names(&store).is_err());
}

#[test]
fn write_replaces_exactly_the_addressed_value() {
    let mut store = sample_store();
    let window = AXUIElement { id: 1 };
    assert_eq!(window.set_main(&mut store, false), Ok(()));
    assert_eq!(window.main(&store), Ok(false));
    // Everything else is untouched.
    assert_eq!(window.role(&store), Ok(String::from("AXWindow")));
    assert_eq!(window.title(&store), Ok(String::from("Main")));
}

#[test]
fn read_only_attribute_is_not_settable() {
    let mut store = sample_store();
    let window = AXUIElement { id: 1 };
    let r = window.set_attribute(
        &mut store,
        &AXAttribute::title(),
        NativeValue::Text(String::from("Other")),
    );
    assert_eq!(r, Err(Error::NotSettable));
    assert_eq!(window.title(&store), Ok(String::from("Main")));
}

#[test]
fn write_of_absent_attribute_is_not_supported() {
    let mut store = sample_store();
    let window = AXUIElement { id: 1 };
    let r = window.set_attribute(
        &mut store,
        &AXAttribute::minimized(),
        NativeValue::Boolean(true),
    );
    assert_eq!(r, Err(Error::NotSupported));
}

#[test]
fn write_with_wrong_shape_is_unexpected_type() {
    let mut store = sample_store();
    let window = AXUIElement { id: 1 };
    let r = window.set_attribute(
        &mut store,
        &AXAttribute::main(),
        NativeValue::Number(1),
    );
    assert_eq!(r, Err(Error::UnexpectedType));
    assert_eq!(window.main(&store), Ok(true));
}

#[test]
fn attribute_names_lists_current_keys_in_order() {
    let store = sample_store();
    let button = AXUIElement { id: 2 };
    let names = button.attribute_names(&store).unwrap();
    assert_eq!(names, vec![String::from("AXRole"), String::from("AXEnabled")]);
}

#[test]
fn descriptors_from_the_same_key_are_interchangeable() {
    let mut store = sample_store();
    let window = AXUIElement { id: 1 };
    let well_known = AXAttribute::value();
    let ad_hoc = AXAttribute::new("AXValue");
    assert!(well_known.same_attribute(&ad_hoc));
    let via_known = window.attribute(&store, &well_known).cloned_debug();
    let via_ad_hoc = window.attribute(&store, &ad_hoc).cloned_debug();
    assert_eq!(via_known, via_ad_hoc);
    // Writing through either descriptor lands on the same attribute.
    assert_eq!(
        window.set_attribute(&mut store, &ad_hoc, NativeValue::Number(9)),
        Ok(())
    );
    let read_back = window.attribute(&store, &well_known).cloned_debug();
    assert_eq!(read_back, Ok(String::from("9")));
}

#[test]
fn element_identity_is_the_native_reference() {
    let a = AXUIElement { id: 4 };
    let b = AXUIElement { id: 4 };
    let c = AXUIElement { id: 5 };
    assert_eq!(a, b);
    assert_ne!(a, c);
}

trait ClonedDebug {
    fn cloned_debug(self) -> Result<String, Error>;
}

impl ClonedDebug for Result<&NativeValue, Error> {
    fn cloned_debug(self) -> Result<String, Error> {
        self.map(|v| accessibility::render::render_value(v))
    }
}

#[test]
fn well_known_descriptors_bind_their_native_keys() {
    assert_eq!(AXAttribute::role().native_key(), "AXRole");
    assert_eq!(AXAttribute::subrole().native_key(), "AXSubrole");
    assert_eq!(AXAttribute::children().native_key(), "AXChildren");
    assert_eq!(AXAttribute::frame().native_key(), "AXFrame");
    assert_eq!(AXAttribute::top_level_ui_element().native_key(), "AXTopLevelUIElement");
    assert_eq!(AXAttribute::windows().native_key(), "AXWindows");
    assert_eq!(AXAttribute::new("Anything").native_key(), "Anything");
}
