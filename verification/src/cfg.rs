//! Terminator classification: the total mapping from a basic block's
//! terminating instruction to its set of labelled successor edges.

use vstd::prelude::*;

verus! {

/// The label carried by a successor edge, naming the terminator kind that
/// produced the edge (and, for dual-target kinds, whether the edge is the
/// normal or the exceptional path).
#[derive(Clone, Copy, Debug, PartialEq, Eq, Structural)]
pub enum EdgeLabel {
    Goto,
    SwitchInt,
    Call,
    Cleanup,
    Drop,
    Unwind,
    DropReplace,
    Assertion,
}

/// One outgoing edge of a basic block: the index of the destination block
/// and the label naming the terminator kind that produced the edge.
#[derive(Clone, Copy, Debug, PartialEq, Eq, Structural)]
pub struct Edge {
    pub target: usize,
    pub label: EdgeLabel,
}

/// The terminating instruction of a basic block. Each variant determines
/// zero or more outgoing edges; `Unknown` stands for a terminator kind
/// outside the recognized set (as would arise if the producing frontend
/// grew a new variant), which classification reports as malformed rather
/// than silently dropping edges.
#[derive(Debug)]
pub enum Terminator {
    /// Unconditional jump to a single target.
    Goto { target: usize },
    /// Multi-way branch: one target per discriminant value, in list order,
    /// plus an optional default taken when no value matches.
    SwitchInt { targets: Vec<usize>, otherwise: Option<usize> },
    /// Function call: an optional normal-return destination and an optional
    /// cleanup block for unwinding. A call with neither diverges.
    Call { destination: Option<usize>, cleanup: Option<usize> },
    /// Resume unwinding; no successors.
    Resume,
    /// Return from the enclosing function; no successors.
    Return,
    /// Control never reaches this point; no successors.
    Unreachable,
    /// Release a resource, continuing at `target`; unwinds to `unwind` on
    /// failure if that block is present.
    Drop { target: usize, unwind: Option<usize> },
    /// Release a resource and write a replacement value, with the same edge
    /// shape as `Drop`.
    DropAndReplace { target: usize, unwind: Option<usize> },
    /// Runtime assertion check: continues at `target` on success, unwinds to
    /// `cleanup` on failure if that block is present.
    Assertion { target: usize, cleanup: Option<usize> },
    /// A terminator kind this classifier does not recognize.
    Unknown,
}

/// Classification error: the terminator kind is outside the recognized set,
/// so the edge set cannot be trusted to be complete.
#[derive(Clone, Copy, Debug, PartialEq, Eq, Structural)]
pub struct UnrecognizedTerminator {}

/// The edges contributed by one optional target: none when the target is
/// absent, one labelled edge when it is present.
pub open spec fn opt_edge(target: Option<usize>, label: EdgeLabel) -> Seq<Edge> {
    match target {
        Option::None => Seq::empty(),
        Option::Some(b) => seq![Edge { target: b, label }],
    }
}

/// The edges of a multi-way branch: one `SwitchInt` edge per explicit
/// target, in target-list order, then one more for the default if present.
pub open spec fn switch_edges(targets: Seq<usize>, otherwise: Option<usize>) -> Seq<Edge> {
    targets.map_values(|b: usize| Edge { target: b, label: EdgeLabel::SwitchInt })
        + opt_edge(otherwise, EdgeLabel::SwitchInt)
}

/// Whether the terminator kind is one the classifier recognizes.
pub open spec fn recognized(t: Terminator) -> bool {
    !(t is Unknown)
}

/// The successor edges of a recognized terminator, normal-path edges always
/// before exceptional-path (cleanup/unwind) edges.
pub open spec fn term_edges(t: Terminator) -> Seq<Edge>
    recommends
        recognized(t),
{
    match t {
        Terminator::Goto { target } => seq![Edge { target, label: EdgeLabel::Goto }],
        Terminator::SwitchInt { targets, otherwise } => switch_edges(targets@, otherwise),
        Terminator::Call { destination, cleanup } => opt_edge(destination, EdgeLabel::Call)
            + opt_edge(cleanup, EdgeLabel::Cleanup),
        Terminator::Resume => Seq::empty(),
        Terminator::Return => Seq::empty(),
        Terminator::Unreachable => Seq::empty(),
        Terminator::Drop { target, unwind } => seq![Edge { target, label: EdgeLabel::Drop }]
            + opt_edge(unwind, EdgeLabel::Unwind),
        Terminator::DropAndReplace { target, unwind } => seq![
            Edge { target, label: EdgeLabel::DropReplace },
        ] + opt_edge(unwind, EdgeLabel::Unwind),
        Terminator::Assertion { target, cleanup } => seq![
            Edge { target, label: EdgeLabel::Assertion },
        ] + opt_edge(cleanup, EdgeLabel::Cleanup),
        Terminator::Unknown => Seq::empty(),
    }
}

/// Whether an optional terminator is recognized; an absent terminator is.
pub open spec fn recognized_opt(t: Option<Terminator>) -> bool {
    t matches Option::Some(tt) ==> recognized(tt)
}

/// The successor edges of a block's optional terminator: a block without a
/// terminator has no outgoing edges.
pub open spec fn edges_of(t: Option<Terminator>) -> Seq<Edge>
    recommends
        recognized_opt(t),
{
    match t {
        Option::None => Seq::empty(),
        Option::Some(tt) => term_edges(tt),
    }
}

/// Every terminator kind that ends control flow produces no successor
/// edges: an absent terminator, `Resume`, `Return` and `Unreachable` all
/// yield the empty edge sequence.
pub proof fn lemma_terminal_no_edges()
    ensures
        edges_of(Option::None) == Seq::<Edge>::empty(),
        term_edges(Terminator::Resume) == Seq::<Edge>::empty(),
        term_edges(Terminator::Return) == Seq::<Edge>::empty(),
        term_edges(Terminator::Unreachable) == Seq::<Edge>::empty(),
{
}

/// A `Call` terminator produces one edge per present optional target: none
/// for a diverging call, and when both targets are present the normal-path
/// (`Call`) edge precedes the cleanup edge.
pub proof fn lemma_call_edges(destination: Option<usize>, cleanup: Option<usize>)
    ensures
        ({
            let edges = term_edges(Terminator::Call { destination, cleanup });
            &&& edges.len() == (if destination is Some {
                1int
            } else {
                0int
            }) + (if cleanup is Some {
                1int
            } else {
                0int
            })
            &&& destination matches Some(d) ==> edges[0] == (Edge {
                target: d,
                label: EdgeLabel::Call,
            })
            &&& cleanup matches Some(c) ==> edges.last() == (Edge {
                target: c,
                label: EdgeLabel::Cleanup,
            })
        }),
{
}

/// A multi-way branch with `N` explicit targets produces `N` `SwitchInt`
/// edges in target-list order, followed by one more for the default target
/// when one is present.
pub proof fn lemma_switch_edges(targets: Seq<usize>, otherwise: Option<usize>)
    ensures
        ({
            let edges = switch_edges(targets, otherwise);
            &&& edges.len() == targets.len() + (if otherwise is Some {
                1int
            } else {
                0int
            })
            &&& forall|k: int|
                0 <= k < targets.len() ==> edges[k] == (Edge {
                    target: targets[k],
                    label: EdgeLabel::SwitchInt,
                })
            &&& otherwise matches Some(d) ==> edges.last() == (Edge {
                target: d,
                label: EdgeLabel::SwitchInt,
            })
        }),
{
}

/// Classifies a block's optional terminator into its ordered successor-edge
/// list, or reports that the terminator kind is unrecognized.
pub fn successor_edges(term: &Option<Terminator>) -> (r: Result<Vec<Edge>, UnrecognizedTerminator>)
    ensures
        r matches Ok(edges) ==> edges@ == edges_of(*term),
        r is Err <==> !recognized_opt(*term),
{
    let t = match term {
        Option::None => {
            let v: Vec<Edge> = Vec::new();
            assert(v@ =~= edges_of(*term));
            return Ok(v);
        },
        Option::Some(t) => t,
    };
    match t {
        Terminator::Goto { target } => {
            let mut v: Vec<Edge> = Vec::new();
            v.push(Edge { target: *target, label: EdgeLabel::Goto });
            assert(v@ =~= edges_of(*term));
            Ok(v)
        },
        Terminator::SwitchInt { targets, otherwise } => {
            let mut v: Vec<Edge> = Vec::new();
            let mut i: usize = 0;
            while i < targets.len()
                invariant
                    i <= targets@.len(),
                    v@.len() == i,
                    forall|k: int|
                        0 <= k < i ==> v@[k] == (Edge {
                            target: targets@[k],
                            label: EdgeLabel::SwitchInt,
                        }),
                decreases targets@.len() - i,
            {
                v.push(Edge { target: targets[i], label: EdgeLabel::SwitchInt });
                i += 1;
            }
            if let Option::Some(d) = otherwise {
                v.push(Edge { target: *d, label: EdgeLabel::SwitchInt });
            }
            assert(v@ =~= switch_edges(targets@, *otherwise));
            Ok(v)
        },
        Terminator::Call { destination, cleanup } => {
            let mut v: Vec<Edge> = Vec::new();
            if let Option::Some(d) = destination {
                v.push(Edge { target: *d, label: EdgeLabel::Call });
            }
            if let Option::Some(c) = cleanup {
                v.push(Edge { target: *c, label: EdgeLabel::Cleanup });
            }
            assert(v@ =~= edges_of(*term));
            Ok(v)
        },
        Terminator::Resume => {
            let v: Vec<Edge> = Vec::new();
            assert(v@ =~= edges_of(*term));
            Ok(v)
        },
        Terminator::Return => {
            let v: Vec<Edge> = Vec::new();
            assert(v@ =~= edges_of(*term));
            Ok(v)
        },
        Terminator::Unreachable => {
            let v: Vec<Edge> = Vec::new();
            assert(v@ =~= edges_of(*term));
            Ok(v)
        },
        Terminator::Drop { target, unwind } => {
            let mut v: Vec<Edge> = Vec::new();
            v.push(Edge { target: *target, label: EdgeLabel::Drop });
            if let Option::Some(u) = unwind {
                v.push(Edge { target: *u, label: EdgeLabel::Unwind });
            }
            assert(v@ =~= edges_of(*term));
            Ok(v)
        },
        Terminator::DropAndReplace { target, unwind } => {
            let mut v: Vec<Edge> = Vec::new();
            v.push(Edge { target: *target, label: EdgeLabel::DropReplace });
            if let Option::Some(u) = unwind {
                v.push(Edge { target: *u, label: EdgeLabel::Unwind });
            }
            assert(v@ =~= edges_of(*term));
            Ok(v)
        },
        Terminator::Assertion { target, cleanup } => {
            let mut v: Vec<Edge> = Vec::new();
            v.push(Edge { target: *target, label: EdgeLabel::Assertion });
            if let Option::Some(c) = cleanup {
                v.push(Edge { target: *c, label: EdgeLabel::Cleanup });
            }
            assert(v@ =~= edges_of(*term));
            Ok(v)
        },
        Terminator::Unknown => Err(UnrecognizedTerminator {}),
    }
}

} // verus!
