use accessibility::tree_walker::{TreeVisitor, TreeWalker, TreeWalkerFlow};
use accessibility::ui_element::{AXUIElement, NativeAttribute, NativeElement, NativeStore};
use accessibility::value::NativeValue;

fn node(id: u64, children: Vec<u64>, responsive: bool) -> NativeElement {
    let refs = children.into_iter().map(NativeValue::ElementRef).collect();
    NativeElement {
        id,
        attributes: vec![NativeAttribute {
            key: String::from("AXChildren"),
            value: NativeValue::Array(refs),
            writable: false,
        }],
        responsive,
    }
}

/// A tree:
///         1
///       /   \
///      2     3
///     / \
///    4   5
fn sample_tree() -> NativeStore {
    NativeStore {
        elements: vec![
            node(1, vec![2, 3], true),
            node(2, vec![4, 5], true),
            node(3, vec![], true),
            node(4, vec![], true),
            node(5, vec![], true),
        ],
    }
}

#[derive(Clone, Copy, PartialEq, Eq, Debug)]
enum Event {
    Enter(u64),
    Exit(u64),
}

struct Recorder {
    events: Vec<Event>,
    skip_at: Option<u64>,
}

impl TreeVisitor for Recorder {
    // The `log` and `decision` items exist only for specifications; their
    // bodies are never executed.
    fn log(&self) -> accessibility::tree_walker::CallLog {
        panic!("specification-only")
    }

    fn decision(
        &self,
        _store: &NativeStore,
        _element: &AXUIElement,
    ) -> TreeWalkerFlow {
        panic!("specification-only")
    }

    fn enter_element(&mut self, _store: &NativeStore, element: &AXUIElement) -> TreeWalkerFlow {
        self.events.push(Event::Enter(element.id));
        if self.skip_at == Some(element.id) {
            TreeWalkerFlow::SkipSubtree
        } else {
            TreeWalkerFlow::Continue
        }
    }

    fn exit_element(&mut self, _store: &NativeStore, element: &AXUIElement) {
        self.events.push(Event::Exit(element.id));
    }
}

fn enters(events: &[Event]) -> usize {
    events.iter().filter(|e| matches!(e, Event::Enter(_))).count()
}

fn exits(events: &[Event]) -> usize {
    events.iter().filter(|e| matches!(e, Event::Exit(_))).count()
}

#[test]
fn depth_first_order_with_paired_exits() {
    let store = sample_tree();
    let mut rec = Recorder { events: Vec::new(), skip_at: None };
    let _ = TreeWalker::new().walk(&store, &AXUIElement { id: 1 }, &mut rec);
    assert_eq!(
        rec.events,
        vec![
            Event::Enter(1),
            Event::Enter(2),
            Event::Enter(4),
            Event::Exit(4),
            Event::Enter(5),
            Event::Exit(5),
            Event::Exit(2),
            Event::Enter(3),
            Event::Exit(3),
            Event::Exit(1),
        ]
    );
}

#[test]
fn enter_exit_counts_match_on_every_walk() {
    let store = sample_tree();
    for skip in [None, Some(1), Some(2), Some(3)] {
        let mut rec = Recorder { events: Vec::new(), skip_at: skip };
        let _ = TreeWalker::new().walk(&store, &AXUIElement { id: 1 }, &mut rec);
        assert_eq!(enters(&rec.events), exits(&rec.events));
        // Every exit comes after its own enter.
        for (i, e) in rec.events.iter().enumerate() {
            if let Event::Exit(id) = e {
                let before = &rec.events[..i];
                let en = before.iter().filter(|x| **x == Event::Enter(*id)).count();
                let ex = before.iter().filter(|x| **x == Event::Exit(*id)).count();
                assert!(ex < en, "exit of {id} before its enter");
            }
        }
    }
}

#[test]
fn skip_subtree_skips_children_but_still_exits() {
    let store = sample_tree();
    // Node 2 (two children: 4 and 5) skips its subtree.
    let mut rec = Recorder { events: Vec::new(), skip_at: Some(2) };
    let _ = TreeWalker::new().walk(&store, &AXUIElement { id: 1 }, &mut rec);
    assert_eq!(
        rec.events,
        vec![
            Event::Enter(1),
            Event::Enter(2),
            Event::Exit(2),
            Event::Enter(3),
            Event::Exit(3),
            Event::Exit(1),
        ]
    );
    assert!(!rec.events.contains(&Event::Enter(4)));
    assert!(!rec.events.contains(&Event::Enter(5)));
    assert_eq!(rec.events.iter().filter(|e| **e == Event::Exit(2)).count(), 1);
}

#[test]
fn child_enumeration_failure_is_treated_as_childless() {
    // Node 2 no longer answers: its child enumeration fails, but the walk
    // continues to its sibling 3 and still exits node 2 and the root.
    let store = NativeStore {
        elements: vec![
            node(1, vec![2, 3], true),
            node(2, vec![4, 5], false),
            node(3, vec![], true),
            node(4, vec![], true),
            node(5, vec![], true),
        ],
    };
    let mut rec = Recorder { events: Vec::new(), skip_at: None };
    let _ = TreeWalker::new().walk(&store, &AXUIElement { id: 1 }, &mut rec);
    assert_eq!(
        rec.events,
        vec![
            Event::Enter(1),
            Event::Enter(2),
            Event::Exit(2),
            Event::Enter(3),
            Event::Exit(3),
            Event::Exit(1),
        ]
    );
}

#[test]
fn missing_children_attribute_is_childless() {
    let store = NativeStore {
        elements: vec![
            NativeElement { id: 1, attributes: vec![], responsive: true },
        ],
    };
    let mut rec = Recorder { events: Vec::new(), skip_at: None };
    let _ = TreeWalker::new().walk(&store, &AXUIElement { id: 1 }, &mut rec);
    assert_eq!(rec.events, vec![Event::Enter(1), Event::Exit(1)]);
}

#[test]
fn zero_depth_limit_visits_only_the_root_pair() {
    let store = sample_tree();
    let mut rec = Recorder { events: Vec::new(), skip_at: None };
    let _ = TreeWalker::with_max_depth(0).walk(&store, &AXUIElement { id: 1 }, &mut rec);
    assert_eq!(rec.events, vec![Event::Enter(1), Event::Exit(1)]);
}

#[test]
fn depth_limit_one_stops_below_the_first_level() {
    let store = sample_tree();
    let mut rec = Recorder { events: Vec::new(), skip_at: None };
    let _ = TreeWalker::with_max_depth(1).walk(&store, &AXUIElement { id: 1 }, &mut rec);
    assert_eq!(
        rec.events,
        vec![
            Event::Enter(1),
            Event::Enter(2),
            Event::Exit(2),
            Event::Enter(3),
            Event::Exit(3),
            Event::Exit(1),
        ]
    );
}

#[test]
fn depth_limit_bounds_a_cyclic_store() {
    // 1 and 2 point at each other; the depth limit still ends the walk.
    let store = NativeStore {
        elements: vec![node(1, vec![2], true), node(2, vec![1], true)],
    };
    let mut rec = Recorder { events: Vec::new(), skip_at: None };
    let _ = TreeWalker::with_max_depth(3).walk(&store, &AXUIElement { id: 1 }, &mut rec);
    assert_eq!(enters(&rec.events), 4);
    assert_eq!(exits(&rec.events), 4);
}
