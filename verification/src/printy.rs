//! The line-building visitor behind the diagnostic walk: for every entered
//! element within the depth limit it records one header line — indentation,
//! role, child count — followed by one line per discovered attribute other
//! than the child list, each with its generically rendered value. The
//! caller prints the collected lines; nothing here touches an output
//! stream.

use vstd::prelude::*;
use crate::attribute::AXAttribute;
use crate::debug::spec_role_text;
use crate::render::{render_value, spec_render, spec_udec, udec};
use crate::tree_walker::{TraceEvent, TreeVisitor, TreeWalkerFlow};
use crate::ui_element::{
    spec_attribute_names, spec_raw_attribute, AXUIElement, NativeStore,
};
use crate::accessors::spec_elements_attribute;

verus! {

/// The command-line options of the diagnostic front end.
pub struct Opt {
    pub max_depth: usize,
}

/// Text repeated a number of times.
pub open spec fn spec_repeat(s: Seq<char>, n: nat) -> Seq<char>
    decreases n,
{
    if n == 0 {
        Seq::empty()
    } else {
        spec_repeat(s, (n - 1) as nat) + s
    }
}

/// Repeats a text fragment.
pub fn repeat(s: &str, n: usize) -> (r: String)
    ensures
        r@ == spec_repeat(s@, n as nat),
{
    let mut out = String::new();
    let mut i: usize = 0;
    while i < n
        invariant
            i <= n,
            out@ == spec_repeat(s@, i as nat),
        decreases n - i,
    {
        out.append(s);
        i = i + 1;
    }
    out
}

/// The number of children the walk would report: the length of a readable
/// child list, zero when the read fails.
pub open spec fn spec_child_count(store: NativeStore, id: u64) -> nat {
    match spec_elements_attribute(store, id, "AXChildren"@) {
        Ok(ids) => ids.len(),
        Err(_) => 0,
    }
}

/// One element's header line under a given indentation.
pub open spec fn spec_entry_line(store: NativeStore, id: u64, ind: Seq<char>) -> Seq<char> {
    ind + "- "@ + spec_role_text(store, id) + " ("@ + spec_udec(spec_child_count(store, id))
        + " children)"@
}

/// The attribute lines from one index of the discovered names on: one line
/// per readable attribute whose key is not the skipped child-list key.
pub open spec fn spec_attr_lines(
    store: NativeStore,
    id: u64,
    names: Seq<Seq<char>>,
    i: int,
    ind: Seq<char>,
    skip: Seq<char>,
) -> Seq<Seq<char>>
    decreases names.len() - i,
{
    if i < 0 || i >= names.len() {
        Seq::empty()
    } else {
        (if names[i] != skip {
            match spec_raw_attribute(store, id, names[i]) {
                Ok(v) => seq![ind + "|. "@ + names[i] + ": "@ + spec_render(v)],
                Err(_) => Seq::empty(),
            }
        } else {
            Seq::empty()
        }) + spec_attr_lines(store, id, names, i + 1, ind, skip)
    }
}

/// Everything one visit below the depth limit appends: the header line,
/// then the attribute lines (none when the enumeration itself fails).
pub open spec fn spec_visit_lines(store: NativeStore, id: u64, ind: Seq<char>, skip: Seq<char>) -> Seq<
    Seq<char>,
> {
    seq![spec_entry_line(store, id, ind)] + match spec_attribute_names(store, id) {
        Ok(ns) => spec_attr_lines(store, id, ns, 0, ind, skip),
        Err(_) => Seq::empty(),
    }
}

/// The collected lines as mathematical text.
pub open spec fn lines_view(ls: Seq<String>) -> Seq<Seq<char>> {
    ls.map(|i: int, s: String| s@)
}

/// The line-building visitor: its own depth counter (kept symmetric by the
/// enter/exit callbacks), the depth limit past which it skips subtrees,
/// the per-level indentation fragment, the child-list descriptor whose key
/// is excluded from the attribute lines, the lines built so far, and the
/// ghost log of the callbacks it has received (the visitor trait's
/// observable call record).
pub struct PrintyBoi {
    pub level: usize,
    pub max_depth: usize,
    pub indent: String,
    pub children: AXAttribute,
    pub lines: Vec<String>,
    pub trace: Ghost<Seq<TraceEvent>>,
}

impl PrintyBoi {
    /// A fresh visitor at depth zero with the given per-level indentation
    /// width and depth limit.
    pub fn new_with_indentation(indent: usize, max_depth: usize) -> (r: PrintyBoi)
        ensures
            r.level == 0,
            r.max_depth == max_depth,
            r.indent@ == spec_repeat(" "@, indent as nat),
            r.children.key@ == "AXChildren"@,
            r.lines@ =~= Seq::<String>::empty(),
            r.trace@ =~= Seq::<TraceEvent>::empty(),
    {
        PrintyBoi {
            level: 0,
            max_depth,
            indent: repeat(" ", indent),
            children: AXAttribute::children(),
            lines: Vec::new(),
            trace: Ghost(Seq::empty()),
        }
    }

    /// One enter step: at or past the depth limit the subtree is skipped
    /// and no line is recorded; below it, the element's header line and
    /// attribute lines are appended. Either way the depth counter grows by
    /// one (it saturates at the machine limit rather than overflow).
    pub fn visit(&mut self, store: &NativeStore, element: &AXUIElement) -> (r: TreeWalkerFlow)
        ensures
            final(self).max_depth == old(self).max_depth,
            final(self).indent == old(self).indent,
            final(self).children == old(self).children,
            final(self).trace == old(self).trace,
            old(self).level < usize::MAX ==> final(self).level == old(self).level + 1,
            old(self).level == usize::MAX ==> final(self).level == usize::MAX,
            r == (if old(self).level >= old(self).max_depth {
                TreeWalkerFlow::SkipSubtree
            } else {
                TreeWalkerFlow::Continue
            }),
            old(self).level >= old(self).max_depth ==> final(self).lines == old(self).lines,
            old(self).level < old(self).max_depth ==> lines_view(final(self).lines@) =~~=
                lines_view(old(self).lines@) + spec_visit_lines(
                *store,
                element.id,
                spec_repeat(old(self).indent@, old(self).level as nat),
                old(self).children.key@,
            ),
    {
        proof {
            reveal_strlit("- ");
            reveal_strlit(" (");
            reveal_strlit(" children)");
            reveal_strlit("|. ");
            reveal_strlit(": ");
        }
        let ind = repeat(self.indent.as_str(), self.level);
        let old_level = self.level;
        if self.level < usize::MAX {
            self.level = self.level + 1;
        }
        if old_level >= self.max_depth {
            return TreeWalkerFlow::SkipSubtree;
        }
        let role = match element.role(store) {
            Ok(r0) => r0,
            Err(_) => String::new(),
        };
        let count: u64 = match element.children(store) {
            Ok(kids) => kids.len() as u64,
            Err(_) => 0,
        };
        proof {
            assert(count as nat == spec_child_count(*store, element.id));
            assert(role@ == spec_role_text(*store, element.id));
        }
        let mut line = ind.clone();
        line.append("- ");
        line.append(role.as_str());
        line.append(" (");
        line.append(udec(count).as_str());
        line.append(" children)");
        let ghost base = lines_view(self.lines@);
        let ghost ind0 = spec_repeat(old(self).indent@, old(self).level as nat);
        let ghost skip = old(self).children.key@;
        self.lines.push(line);
        proof {
            assert(lines_view(self.lines@) =~~= base + seq![
                spec_entry_line(*store, element.id, ind0),
            ]);
        }
        match element.attribute_names(store) {
            Ok(names) => {
                let ghost ks = crate::debug::spec_attribute_names_unwrap(*store, element.id);
                proof {
                    assert(names@.map(|i: int, s: String| s@) =~~= ks);
                }
                let mut i: usize = 0;
                while i < names.len()
                    invariant
                        i <= names@.len(),
                        names@.map(|k: int, s: String| s@) =~~= ks,
                        ks.len() == names@.len(),
                        self.children == old(self).children,
                        self.indent == old(self).indent,
                        self.max_depth == old(self).max_depth,
                        self.trace == old(self).trace,
                        old(self).level < usize::MAX ==> self.level == old(self).level + 1,
                        old(self).level == usize::MAX ==> self.level == usize::MAX,
                        spec_attribute_names(*store, element.id) == Ok::<
                            Seq<Seq<char>>,
                            crate::Error,
                        >(ks),
                        skip == old(self).children.key@,
                        base == lines_view(old(self).lines@),
                        ind0 == spec_repeat(old(self).indent@, old(self).level as nat),
                        lines_view(self.lines@) + spec_attr_lines(
                            *store,
                            element.id,
                            ks,
                            i as int,
                            ind0,
                            skip,
                        ) =~~= base + seq![spec_entry_line(*store, element.id, ind0)]
                            + spec_attr_lines(*store, element.id, ks, 0, ind0, skip),
                        ind@ == ind0,
                    decreases names@.len() - i,
                {
                    proof {
                        assert(names@[i as int]@ == ks[i as int]);
                    }
                    let ghost pre = lines_view(self.lines@);
                    let ghost contribution = (if ks[i as int] != skip {
                        match spec_raw_attribute(*store, element.id, ks[i as int]) {
                            Ok(v) => seq![ind0 + "|. "@ + ks[i as int] + ": "@ + spec_render(v)],
                            Err(_) => Seq::<Seq<char>>::empty(),
                        }
                    } else {
                        Seq::<Seq<char>>::empty()
                    });
                    proof {
                        assert(spec_attr_lines(*store, element.id, ks, i as int, ind0, skip)
                            == contribution + spec_attr_lines(
                            *store,
                            element.id,
                            ks,
                            i as int + 1,
                            ind0,
                            skip,
                        ));
                    }
                    if !(names[i] == self.children.key) {
                        match element.raw_attribute(store, &names[i]) {
                            Ok(v) => {
                                let mut l = ind.clone();
                                l.append("|. ");
                                l.append(names[i].as_str());
                                l.append(": ");
                                l.append(render_value(v).as_str());
                                self.lines.push(l);
                                proof {
                                    assert(lines_view(self.lines@) =~~= pre + contribution);
                                }
                            },
                            Err(_) => {
                                proof {
                                    assert(lines_view(self.lines@) =~~= pre + contribution);
                                }
                            },
                        }
                    } else {
                        proof {
                            assert(lines_view(self.lines@) =~~= pre + contribution);
                        }
                    }
                    proof {
                        let rest = spec_attr_lines(*store, element.id, ks, i as int + 1, ind0, skip);
                        assert((pre + contribution) + rest =~~= pre + (contribution + rest));
                        assert(lines_view(self.lines@) + rest =~~= base + seq![
                            spec_entry_line(*store, element.id, ind0),
                        ] + spec_attr_lines(*store, element.id, ks, 0, ind0, skip));
                    }
                    i = i + 1;
                }
                proof {
                    assert(spec_attr_lines(*store, element.id, ks, names@.len() as int, ind0, skip)
                        =~~= Seq::<Seq<char>>::empty());
                    assert(lines_view(self.lines@) =~~= base + spec_visit_lines(
                        *store,
                        element.id,
                        ind0,
                        skip,
                    ));
                }
            },
            Err(_) => {
                proof {
                    assert(lines_view(self.lines@) =~~= base + spec_visit_lines(
                        *store,
                        element.id,
                        ind0,
                        skip,
                    ));
                }
            },
        }
        TreeWalkerFlow::Continue
    }

    /// One exit step: the depth counter shrinks by one, and the lines are
    /// untouched. (It stops at zero rather than underflow; a zero counter
    /// on exit means the callbacks were not paired by the caller.)
    pub fn leave(&mut self)
        ensures
            final(self).max_depth == old(self).max_depth,
            final(self).indent == old(self).indent,
            final(self).children == old(self).children,
            final(self).lines == old(self).lines,
            final(self).trace == old(self).trace,
            old(self).level > 0 ==> final(self).level == old(self).level - 1,
            old(self).level == 0 ==> final(self).level == 0,
    {
        if self.level > 0 {
            self.level = self.level - 1;
        }
    }
}

impl TreeVisitor for PrintyBoi {
    open spec fn log(&self) -> Seq<TraceEvent> {
        self.trace@
    }

    open spec fn decision(&self, store: &NativeStore, element: &AXUIElement) -> TreeWalkerFlow {
        if self.level >= self.max_depth {
            TreeWalkerFlow::SkipSubtree
        } else {
            TreeWalkerFlow::Continue
        }
    }

    fn enter_element(&mut self, store: &NativeStore, element: &AXUIElement) -> (r: TreeWalkerFlow) {
        let r = self.visit(store, element);
        self.trace = Ghost(self.trace@ + seq![TraceEvent::Enter(element.id)]);
        r
    }

    fn exit_element(&mut self, store: &NativeStore, element: &AXUIElement) {
        self.leave();
        self.trace = Ghost(self.trace@ + seq![TraceEvent::Exit(element.id)]);
    }
}

} // verus!
