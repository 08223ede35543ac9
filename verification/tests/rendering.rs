use accessibility::debug::{is_registry_key, DebugField};
use accessibility::printy::{repeat, PrintyBoi};
use accessibility::render::{idec, render_value, udec};
use accessibility::tree_walker::TreeWalker;
use accessibility::ui_element::{AXUIElement, NativeAttribute, NativeElement, NativeStore};
use accessibility::value::{NativeValue, Point, Rect};

fn attr(key: &str, value: NativeValue, writable: bool) -> NativeAttribute {
    NativeAttribute { key: String::from(key), value, writable }
}

#[test]
fn decimal_rendering_is_exact() {
    assert_eq!(udec(0), "0");
    assert_eq!(udec(7), "7");
    assert_eq!(udec(1203), "1203");
    assert_eq!(idec(-45), "-45");
    assert_eq!(idec(0), "0");
    assert_eq!(idec(i64::MIN), "-9223372036854775808");
    assert_eq!(idec(i64::MAX), "9223372036854775807");
}

#[test]
fn value_rendering_by_variant() {
    assert_eq!(render_value(&NativeValue::Text(String::from("plain"))), "plain");
    assert_eq!(render_value(&NativeValue::Boolean(true)), "true");
    assert_eq!(render_value(&NativeValue::Boolean(false)), "false");
    assert_eq!(render_value(&NativeValue::Number(-3)), "-3");
    assert_eq!(render_value(&NativeValue::BoxedPoint(Point { x: 1, y: 2 })), "(1, 2)");
    assert_eq!(
        render_value(&NativeValue::BoxedRect(Rect { x: 1, y: 2, width: 3, height: 4 })),
        "(1, 2, 3, 4)"
    );
    assert_eq!(render_value(&NativeValue::ElementRef(12)), "#12");
    assert_eq!(
        render_value(&NativeValue::Array(vec![
            NativeValue::Number(1),
            NativeValue::Text(String::from("two")),
            NativeValue::Array(vec![NativeValue::Boolean(false)]),
        ])),
        "[1, two, [false]]"
    );
    assert_eq!(render_value(&NativeValue::Opaque(5)), "opaque#5");
}

#[test]
fn repeat_builds_the_indentation() {
    assert_eq!(repeat(" ", 0), "");
    assert_eq!(repeat("ab", 3), "ababab");
}

#[test]
fn registry_keys_are_recognised() {
    assert!(is_registry_key(&String::from("AXRole")));
    assert!(is_registry_key(&String::from("AXChildren")));
    assert!(is_registry_key(&String::from("AXWindows")));
    assert!(!is_registry_key(&String::from("CustomTag")));
    assert!(!is_registry_key(&String::from("AXRoleX")));
}

fn pairs(fields: &[DebugField]) -> Vec<(String, String)> {
    fields.iter().map(|f| (f.name.clone(), f.rendered.clone())).collect()
}

#[test]
fn debug_dump_orders_known_then_discovered() {
    // The fixed mock: role present, subrole absent, enabled true, one
    // discovered attribute the registry does not know.
    let store = NativeStore {
        elements: vec![NativeElement {
            id: 1,
            attributes: vec![
                attr("CustomTag", NativeValue::Text(String::from("X")), false),
                attr("AXEnabled", NativeValue::Boolean(true), false),
                attr("AXRole", NativeValue::Text(String::from("AXButton")), false),
            ],
            responsive: true,
        }],
    };
    let fields = (AXUIElement { id: 1 }).debug_all(&store);
    assert_eq!(
        pairs(&fields),
        vec![
            (String::from("role"), String::from("AXButton")),
            (String::from("enabled"), String::from("true")),
            (String::from("CustomTag"), String::from("X")),
        ]
    );
}

#[test]
fn debug_dump_renders_child_arrays_as_roles_one_level_deep() {
    let store = NativeStore {
        elements: vec![
            NativeElement {
                id: 1,
                attributes: vec![
                    attr("AXRole", NativeValue::Text(String::from("AXWindow")), false),
                    attr(
                        "AXChildren",
                        NativeValue::Array(vec![
                            NativeValue::ElementRef(2),
                            NativeValue::ElementRef(3),
                        ]),
                        false,
                    ),
                ],
                responsive: true,
            },
            NativeElement {
                id: 2,
                attributes: vec![attr(
                    "AXRole",
                    NativeValue::Text(String::from("AXButton")),
                    false,
                )],
                responsive: true,
            },
            NativeElement {
                id: 3,
                attributes: vec![attr(
                    "AXRole",
                    NativeValue::Text(String::from("AXSlider")),
                    false,
                )],
                responsive: true,
            },
        ],
    };
    let fields = (AXUIElement { id: 1 }).debug_all(&store);
    assert_eq!(
        pairs(&fields),
        vec![
            (String::from("role"), String::from("AXWindow")),
            (String::from("children"), String::from("[AXButton, AXSlider]")),
        ]
    );
}

#[test]
fn printy_walk_builds_indented_lines() {
    let store = NativeStore {
        elements: vec![
            NativeElement {
                id: 1,
                attributes: vec![
                    attr("AXRole", NativeValue::Text(String::from("AXWindow")), false),
                    attr("AXTitle", NativeValue::Text(String::from("Main")), false),
                    attr(
                        "AXChildren",
                        NativeValue::Array(vec![NativeValue::ElementRef(2)]),
                        false,
                    ),
                ],
                responsive: true,
            },
            NativeElement {
                id: 2,
                attributes: vec![attr(
                    "AXRole",
                    NativeValue::Text(String::from("AXButton")),
                    false,
                )],
                responsive: true,
            },
        ],
    };
    let mut printy = PrintyBoi::new_with_indentation(2, 10);
    let _ = TreeWalker::with_max_depth(10).walk(&store, &AXUIElement { id: 1 }, &mut printy);
    assert_eq!(
        printy.lines,
        vec![
            String::from("- AXWindow (1 children)"),
            String::from("|. AXRole: AXWindow"),
            String::from("|. AXTitle: Main"),
            String::from("  - AXButton (0 children)"),
            String::from("  |. AXRole: AXButton"),
        ]
    );
    assert_eq!(printy.level, 0, "enter/exit stayed symmetric");
}

#[test]
fn printy_depth_limit_skips_below() {
    let store = NativeStore {
        elements: vec![
            NativeElement {
                id: 1,
                attributes: vec![
                    attr("AXRole", NativeValue::Text(String::from("AXWindow")), false),
                    attr(
                        "AXChildren",
                        NativeValue::Array(vec![NativeValue::ElementRef(2)]),
                        false,
                    ),
                ],
                responsive: true,
            },
            NativeElement {
                id: 2,
                attributes: vec![attr(
                    "AXRole",
                    NativeValue::Text(String::from("AXButton")),
                    false,
                )],
                responsive: true,
            },
        ],
    };
    let mut printy = PrintyBoi::new_with_indentation(4, 1);
    let _ = TreeWalker::with_max_depth(1).walk(&store, &AXUIElement { id: 1 }, &mut printy);
    assert_eq!(
        printy.lines,
        vec![
            String::from("- AXWindow (1 children)"),
            String::from("|. AXRole: AXWindow"),
        ]
    );
}

#[test]
fn unreadable_element_dumps_nothing() {
    let store = NativeStore {
        elements: vec![NativeElement { id: 1, attributes: vec![], responsive: false }],
    };
    let fields = (AXUIElement { id: 1 }).debug_all(&store);
    assert!(fields.is_empty());
}

#[test]
fn printy_zero_depth_records_nothing() {
    let store = NativeStore {
        elements: vec![NativeElement {
            id: 1,
            attributes: vec![attr("AXRole", NativeValue::Text(String::from("AXWindow")), false)],
            responsive: true,
        }],
    };
    let mut printy = PrintyBoi::new_with_indentation(4, 0);
    let _ = TreeWalker::with_max_depth(0).walk(&store, &AXUIElement { id: 1 }, &mut printy);
    assert!(printy.lines.is_empty());
    assert_eq!(printy.level, 0);
}
