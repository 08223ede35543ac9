//! The visitor-driven, depth-first traversal engine.
//!
//! The walker enters a node, lets the visitor decide whether to descend
//! (`Continue`) or not (`SkipSubtree`), walks the children in native order,
//! and always exits the node afterwards: the enter/exit pairing is
//! unconditional. Children are discovered by reading the `children`
//! attribute on the current element; if that read fails, the node is
//! treated as having no children — failure to enumerate children never
//! aborts the walk. A maximum-depth limit owned by the walk bounds the
//! descent (and makes the walk terminate even on a cyclic store).
//!
//! The visitor callbacks are observable in specifications: the
//! [`TreeVisitor`] trait carries a ghost call log that each callback
//! appends its own event to, and a walk's contract states that the
//! visitor's log grows by exactly the walk's trace. The trace therefore
//! records the calls actually made, in order, and the traversal laws
//! stated over it — the trace opens with the root's enter and closes with
//! the root's exit, every element has exactly as many exits as enters, no
//! prefix has seen more exits than enters for any element, a skip decision
//! or an unreadable child list confines a node to its own enter/exit pair,
//! and every child of a continued node is entered — are laws about the
//! calls themselves.

use vstd::prelude::*;
use crate::accessors::spec_elements_attribute;
use crate::ui_element::{AXUIElement, NativeStore};

verus! {

/// The visitor's per-node decision: descend into the children, or skip the
/// subtree. The node's exit callback runs either way.
#[derive(Clone, Copy, PartialEq, Eq, Structural, Debug)]
pub enum TreeWalkerFlow {
    Continue,
    SkipSubtree,
}

/// One visitor call, recorded in the ghost call log and in the trace of a
/// walk.
pub enum TraceEvent {
    Enter(u64),
    Exit(u64),
}

/// A visitor's recorded call log, as specifications see it. Exposed under
/// this name so that unverified implementors of [`TreeVisitor`] can write
/// the signature of the specification-only `log` item (its body is never
/// run).
pub type CallLog = Seq<TraceEvent>;

/// A traversal visitor: `enter_element` runs before a node's children in
/// pre-order and steers the walk through its result; `exit_element` runs
/// after the children (or after the decision not to visit them) in
/// post-order.
///
/// An implementor exposes two specification views of itself: `log`, the
/// sequence of callback events it has received, which `enter_element` and
/// `exit_element` each extend by exactly their own event; and `decision`,
/// the flow `enter_element` returns as a function of the visitor's state
/// before the call. Through them a walk's contract can speak about the
/// calls it makes.
pub trait TreeVisitor {
    spec fn log(&self) -> Seq<TraceEvent>;

    spec fn decision(&self, store: &NativeStore, element: &AXUIElement) -> TreeWalkerFlow;

    fn enter_element(&mut self, store: &NativeStore, element: &AXUIElement) -> (r: TreeWalkerFlow)
        ensures
            final(self).log() == old(self).log() + seq![TraceEvent::Enter(element.id)],
            r == old(self).decision(store, element),
    ;

    fn exit_element(&mut self, store: &NativeStore, element: &AXUIElement)
        ensures
            final(self).log() == old(self).log() + seq![TraceEvent::Exit(element.id)],
    ;
}

/// How many events of the trace satisfy the predicate.
pub open spec fn count_where(t: Seq<TraceEvent>, p: spec_fn(TraceEvent) -> bool) -> nat
    decreases t.len(),
{
    if t.len() == 0 {
        0
    } else {
        count_where(t.drop_last(), p) + if p(t.last()) {
            1nat
        } else {
            0nat
        }
    }
}

/// Matches any enter event.
pub open spec fn any_enter() -> spec_fn(TraceEvent) -> bool {
    |e: TraceEvent| e matches TraceEvent::Enter(_)
}

/// Matches any exit event.
pub open spec fn any_exit() -> spec_fn(TraceEvent) -> bool {
    |e: TraceEvent| e matches TraceEvent::Exit(_)
}

/// Matches the enter event of one element.
pub open spec fn enter_of(id: u64) -> spec_fn(TraceEvent) -> bool {
    |e: TraceEvent| e == TraceEvent::Enter(id)
}

/// Matches the exit event of one element.
pub open spec fn exit_of(id: u64) -> spec_fn(TraceEvent) -> bool {
    |e: TraceEvent| e == TraceEvent::Exit(id)
}

/// Enter/exit symmetry: the trace holds as many exit events as enter
/// events, overall and per element.
pub open spec fn paired(t: Seq<TraceEvent>) -> bool {
    &&& count_where(t, any_enter()) == count_where(t, any_exit())
    &&& forall|id: u64| #[trigger] count_where(t, enter_of(id)) == count_where(t, exit_of(id))
}

/// Proper nesting: in no prefix of the trace has an element been exited
/// more often than it had been entered, so every exit comes after its own
/// enter.
pub open spec fn exits_after_enters(t: Seq<TraceEvent>) -> bool {
    forall|i: int, id: u64|
        0 <= i <= t.len() ==> #[trigger] count_where(t.take(i), exit_of(id)) <= count_where(
            t.take(i),
            enter_of(id),
        )
}

/// The identities a readable child list holds, in native order; empty when
/// the list is unreadable.
pub open spec fn spec_children_of(store: NativeStore, id: u64) -> Seq<u64> {
    match spec_elements_attribute(store, id, "AXChildren"@) {
        Ok(ids) => ids,
        Err(_) => Seq::empty(),
    }
}

/// Counting distributes over trace concatenation.
pub proof fn lemma_count_concat(a: Seq<TraceEvent>, b: Seq<TraceEvent>, p: spec_fn(TraceEvent) -> bool)
    ensures
        count_where(a + b, p) == count_where(a, p) + count_where(b, p),
    decreases b.len(),
{
    if b.len() == 0 {
        assert(a + b =~= a);
    } else {
        lemma_count_concat(a, b.drop_last(), p);
        assert((a + b).drop_last() =~= a + b.drop_last());
        assert((a + b).last() == b.last());
    }
}

/// Counting a one-event trace.
pub proof fn lemma_count_singleton(e: TraceEvent, p: spec_fn(TraceEvent) -> bool)
    ensures
        count_where(seq![e], p) == if p(e) {
            1nat
        } else {
            0nat
        },
{
    assert(seq![e].drop_last() =~= Seq::<TraceEvent>::empty());
    assert(count_where(Seq::<TraceEvent>::empty(), p) == 0);
}

/// A trace whose first event satisfies the predicate counts at least one.
pub proof fn lemma_count_first(t: Seq<TraceEvent>, p: spec_fn(TraceEvent) -> bool)
    requires
        t.len() > 0,
        p(t[0]),
    ensures
        count_where(t, p) >= 1,
    decreases t.len(),
{
    if t.len() == 1 {
        assert(t.drop_last() =~= Seq::<TraceEvent>::empty());
        assert(t.last() == t[0]);
    } else {
        lemma_count_first(t.drop_last(), p);
    }
}

/// Symmetry and nesting are preserved when two well-formed traces are
/// walked one after the other.
pub proof fn lemma_concat_preserves(a: Seq<TraceEvent>, b: Seq<TraceEvent>)
    requires
        paired(a),
        exits_after_enters(a),
        paired(b),
        exits_after_enters(b),
    ensures
        paired(a + b),
        exits_after_enters(a + b),
{
    lemma_count_concat(a, b, any_enter());
    lemma_count_concat(a, b, any_exit());
    assert forall|id: u64| #[trigger] count_where(a + b, enter_of(id)) == count_where(
        a + b,
        exit_of(id),
    ) by {
        lemma_count_concat(a, b, enter_of(id));
        lemma_count_concat(a, b, exit_of(id));
    }
    assert forall|i: int, id: u64| 0 <= i <= (a + b).len() implies #[trigger] count_where(
        (a + b).take(i),
        exit_of(id),
    ) <= count_where((a + b).take(i), enter_of(id)) by {
        if i <= a.len() {
            assert((a + b).take(i) =~= a.take(i));
        } else {
            assert((a + b).take(i) =~= a + b.take(i - a.len()));
            lemma_count_concat(a, b.take(i - a.len()), enter_of(id));
            lemma_count_concat(a, b.take(i - a.len()), exit_of(id));
            assert(count_where(b.take(i - a.len()), exit_of(id)) <= count_where(
                b.take(i - a.len()),
                enter_of(id),
            ));
        }
    }
}

/// Symmetry and nesting are preserved when a well-formed trace is wrapped
/// in one element's enter and exit, as a node wraps its children's walks.
pub proof fn lemma_wrap_preserves(mid: Seq<TraceEvent>, id: u64)
    requires
        paired(mid),
        exits_after_enters(mid),
    ensures
        paired(seq![TraceEvent::Enter(id)] + mid + seq![TraceEvent::Exit(id)]),
        exits_after_enters(seq![TraceEvent::Enter(id)] + mid + seq![TraceEvent::Exit(id)]),
{
    let en = seq![TraceEvent::Enter(id)];
    let ex = seq![TraceEvent::Exit(id)];
    let t = en + mid + ex;
    assert(paired(en + mid + ex)) by {
        lemma_count_concat(en + mid, ex, any_enter());
        lemma_count_concat(en, mid, any_enter());
        lemma_count_singleton(TraceEvent::Enter(id), any_enter());
        lemma_count_singleton(TraceEvent::Exit(id), any_enter());
        lemma_count_concat(en + mid, ex, any_exit());
        lemma_count_concat(en, mid, any_exit());
        lemma_count_singleton(TraceEvent::Enter(id), any_exit());
        lemma_count_singleton(TraceEvent::Exit(id), any_exit());
        assert forall|x: u64| #[trigger] count_where(t, enter_of(x)) == count_where(
            t,
            exit_of(x),
        ) by {
            lemma_count_concat(en + mid, ex, enter_of(x));
            lemma_count_concat(en, mid, enter_of(x));
            lemma_count_singleton(TraceEvent::Enter(id), enter_of(x));
            lemma_count_singleton(TraceEvent::Exit(id), enter_of(x));
            lemma_count_concat(en + mid, ex, exit_of(x));
            lemma_count_concat(en, mid, exit_of(x));
            lemma_count_singleton(TraceEvent::Enter(id), exit_of(x));
            lemma_count_singleton(TraceEvent::Exit(id), exit_of(x));
        }
    }
    assert forall|i: int, x: u64| 0 <= i <= t.len() implies #[trigger] count_where(
        t.take(i),
        exit_of(x),
    ) <= count_where(t.take(i), enter_of(x)) by {
        if i == 0 {
            assert(t.take(0) =~= Seq::<TraceEvent>::empty());
        } else if i <= 1 + mid.len() {
            assert(t.take(i) =~= en + mid.take(i - 1));
            lemma_count_concat(en, mid.take(i - 1), enter_of(x));
            lemma_count_concat(en, mid.take(i - 1), exit_of(x));
            lemma_count_singleton(TraceEvent::Enter(id), enter_of(x));
            lemma_count_singleton(TraceEvent::Enter(id), exit_of(x));
            assert(count_where(mid.take(i - 1), exit_of(x)) <= count_where(
                mid.take(i - 1),
                enter_of(x),
            ));
        } else {
            assert(t.take(i) =~= t);
            assert(count_where(t, exit_of(x)) <= count_where(t, enter_of(x)));
        }
    }
}

/// Walks one node: enter, children (unless skipped, depth-limited, or
/// unreadable), exit. Every node a walk reaches is processed by a call of
/// this function, so its contract is the per-node form of the traversal
/// laws: the visitor's call log grows by exactly the returned trace; the
/// trace is the node's own enter/exit pair alone when the visitor decided
/// to skip, when the depth budget is spent, or when the node's child list
/// is unreadable; and when the node was continued into, every one of its
/// children is entered.
pub fn walk_node<V: TreeVisitor>(
    store: &NativeStore,
    element: &AXUIElement,
    budget: usize,
    visitor: &mut V,
) -> (t: Ghost<Seq<TraceEvent>>)
    ensures
        t@.len() >= 2,
        t@[0] == TraceEvent::Enter(element.id),
        t@.last() == TraceEvent::Exit(element.id),
        paired(t@),
        exits_after_enters(t@),
        final(visitor).log() == old(visitor).log() + t@,
        old(visitor).decision(store, element) == TreeWalkerFlow::SkipSubtree ==> t@ =~= seq![
            TraceEvent::Enter(element.id),
            TraceEvent::Exit(element.id),
        ],
        budget == 0 ==> t@ =~= seq![TraceEvent::Enter(element.id), TraceEvent::Exit(element.id)],
        spec_elements_attribute(*store, element.id, "AXChildren"@) matches Err(_) ==> t@ =~= seq![
            TraceEvent::Enter(element.id),
            TraceEvent::Exit(element.id),
        ],
        budget > 0 && old(visitor).decision(store, element) == TreeWalkerFlow::Continue
            && spec_elements_attribute(*store, element.id, "AXChildren"@) is Ok ==> forall|j: int|
            0 <= j < spec_children_of(*store, element.id).len() ==> #[trigger] count_where(
                t@,
                enter_of(spec_children_of(*store, element.id)[j]),
            ) >= 1,
    decreases budget,
{
    let flow = visitor.enter_element(store, element);
    let ghost en = seq![TraceEvent::Enter(element.id)];
    let ghost ex = seq![TraceEvent::Exit(element.id)];
    let ghost mut mid: Seq<TraceEvent> = Seq::empty();
    proof {
        assert(paired(mid)) by {
            assert(count_where(mid, any_enter()) == 0);
            assert(count_where(mid, any_exit()) == 0);
            assert forall|x: u64| #[trigger] count_where(mid, enter_of(x)) == count_where(
                mid,
                exit_of(x),
            ) by {
                assert(count_where(mid, enter_of(x)) == 0);
                assert(count_where(mid, exit_of(x)) == 0);
            }
        }
        assert(exits_after_enters(mid)) by {
            assert forall|i: int, x: u64| 0 <= i <= mid.len() implies #[trigger] count_where(
                mid.take(i),
                exit_of(x),
            ) <= count_where(mid.take(i), enter_of(x)) by {
                assert(mid.take(i) =~= mid);
            }
        }
    }
    if budget > 0 && matches!(flow, TreeWalkerFlow::Continue) {
        match element.children(store) {
            Ok(kids) => {
                proof {
                    assert(kids@.map(|k: int, e: AXUIElement| e.id) =~= spec_children_of(
                        *store,
                        element.id,
                    ));
                }
                let mut i: usize = 0;
                while i < kids.len()
                    invariant
                        i <= kids@.len(),
                        budget > 0,
                        paired(mid),
                        exits_after_enters(mid),
                        visitor.log() == old(visitor).log() + seq![
                            TraceEvent::Enter(element.id),
                        ] + mid,
                        kids@.map(|k: int, e: AXUIElement| e.id) =~= spec_children_of(
                            *store,
                            element.id,
                        ),
                        forall|j: int|
                            0 <= j < i ==> #[trigger] count_where(
                                mid,
                                enter_of(kids@[j].id),
                            ) >= 1,
                    decreases kids@.len() - i,
                {
                    let sub = walk_node(store, &kids[i], budget - 1, visitor);
                    proof {
                        lemma_concat_preserves(mid, sub@);
                        assert forall|j: int| 0 <= j < i + 1 implies #[trigger] count_where(
                            mid + sub@,
                            enter_of(kids@[j].id),
                        ) >= 1 by {
                            lemma_count_concat(mid, sub@, enter_of(kids@[j].id));
                            if j == i {
                                lemma_count_first(sub@, enter_of(kids@[j].id));
                            }
                        }
                        assert((old(visitor).log() + seq![TraceEvent::Enter(element.id)] + mid)
                            + sub@ =~= old(visitor).log() + seq![TraceEvent::Enter(element.id)] + (
                        mid + sub@));
                        mid = mid + sub@;
                    }
                    i = i + 1;
                }
            },
            Err(_) => {},
        }
    }
    visitor.exit_element(store, element);
    proof {
        lemma_wrap_preserves(mid, element.id);
    }
    let ghost t = en + mid + ex;
    proof {
        assert(t.len() >= 2);
        assert(t[0] == TraceEvent::Enter(element.id));
        assert(t.last() == TraceEvent::Exit(element.id));
        assert(final(visitor).log() =~= old(visitor).log() + t);
        if mid.len() == 0 {
            assert(t =~= seq![TraceEvent::Enter(element.id), TraceEvent::Exit(element.id)]);
        }
        if budget > 0 && old(visitor).decision(store, element) == TreeWalkerFlow::Continue
            && spec_elements_attribute(*store, element.id, "AXChildren"@) is Ok {
            let ids = spec_children_of(*store, element.id);
            assert forall|j: int| 0 <= j < ids.len() implies #[trigger] count_where(
                t,
                enter_of(ids[j]),
            ) >= 1 by {
                lemma_count_concat(en + mid, ex, enter_of(ids[j]));
                lemma_count_concat(en, mid, enter_of(ids[j]));
            }
        }
    }
    Ghost(t)
}

/// The traversal state of one walk: its maximum-depth limit. The walk owns
/// its depth bookkeeping; no state is shared between walks.
pub struct TreeWalker {
    pub max_depth: usize,
}

impl TreeWalker {
    /// A walker with no practical depth limit.
    pub fn new() -> (r: TreeWalker)
        ensures
            r.max_depth == usize::MAX,
    {
        TreeWalker { max_depth: usize::MAX }
    }

    /// A walker that never descends more than `max_depth` levels below the
    /// root; zero visits the root alone.
    pub fn with_max_depth(max_depth: usize) -> (r: TreeWalker)
        ensures
            r.max_depth == max_depth,
    {
        TreeWalker { max_depth }
    }

    /// Walks the tree rooted at `root` depth-first: pre-order enters,
    /// post-order exits, children in native order, one node fully entered
    /// before its first child. Returns the trace of visitor calls, which
    /// the contract ties to the visitor itself: the visitor's call log
    /// grows by exactly the trace. The traversal laws then hold of the
    /// calls made — unconditional enter/exit pairing with proper nesting;
    /// a root-only pair of calls when the visitor decided to skip, when
    /// the depth limit is zero, or when the root's child enumeration fails
    /// (a failure is treated as "no children", never as an abort); and
    /// every child of a continued root entered. Each node below the root
    /// is processed by a [`walk_node`] call carrying the same per-node
    /// contract with the remaining budget.
    pub fn walk<V: TreeVisitor>(&self, store: &NativeStore, root: &AXUIElement, visitor: &mut V) -> (t:
        Ghost<Seq<TraceEvent>>)
        ensures
            t@.len() >= 2,
            t@[0] == TraceEvent::Enter(root.id),
            t@.last() == TraceEvent::Exit(root.id),
            paired(t@),
            exits_after_enters(t@),
            final(visitor).log() == old(visitor).log() + t@,
            old(visitor).decision(store, root) == TreeWalkerFlow::SkipSubtree ==> t@ =~= seq![
                TraceEvent::Enter(root.id),
                TraceEvent::Exit(root.id),
            ],
            self.max_depth == 0 ==> t@ =~= seq![
                TraceEvent::Enter(root.id),
                TraceEvent::Exit(root.id),
            ],
            spec_elements_attribute(*store, root.id, "AXChildren"@) matches Err(_) ==> t@ =~= seq![
                TraceEvent::Enter(root.id),
                TraceEvent::Exit(root.id),
            ],
            self.max_depth > 0 && old(visitor).decision(store, root) == TreeWalkerFlow::Continue
                && spec_elements_attribute(*store, root.id, "AXChildren"@) is Ok ==> forall|j: int|
                0 <= j < spec_children_of(*store, root.id).len() ==> #[trigger] count_where(
                    t@,
                    enter_of(spec_children_of(*store, root.id)[j]),
                ) >= 1,
    {
        walk_node(store, root, self.max_depth, visitor)
    }
}

} // verus!
