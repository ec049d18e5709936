//! Unit selection: filtering a program's item list down to the
//! function-like units whose bodies get a control-flow graph.

use vstd::prelude::*;

verus! {

/// The kind tag of a top-level program item. Only `Function` items are
/// selected for analysis; every other kind is discarded without inspecting
/// its contents.
#[derive(Clone, Copy, Debug, PartialEq, Eq, Structural)]
pub enum ItemKind {
    Function,
    Struct,
    Enum,
    Trait,
    Impl,
    Module,
    Static,
    Const,
}

/// One top-level item of the analyzed program: its kind tag, a stable
/// opaque identifier assigned by the producing frontend, and a display
/// name.
#[derive(Debug)]
pub struct Item {
    pub kind: ItemKind,
    pub id: u64,
    pub name: String,
}

/// A selected function-like unit: the stable identifier under which the
/// frontend resolves its body, and the display name used to derive the
/// name of its output sink.
#[derive(Debug)]
pub struct Unit {
    pub id: u64,
    pub name: String,
}

impl Unit {
    /// The name of the output sink for this unit's graph description,
    /// derived deterministically from the unit's display name.
    pub fn sink_name(&self) -> (s: String)
        ensures
            s@ == self.name@ + ".dot"@,
    {
        let mut s = self.name.clone();
        s.append(".dot");
        s
    }
}

/// Sink names collide exactly when display names do: appending the fixed
/// suffix neither merges distinct names nor splits equal ones, so checking
/// the display names for duplicates is enough to keep sinks exclusive.
pub proof fn lemma_sink_name_injective(a: Seq<char>, b: Seq<char>)
    ensures
        (a + ".dot"@ == b + ".dot"@) <==> a == b,
{
    if a + ".dot"@ == b + ".dot"@ {
        assert((a + ".dot"@).len() == a.len() + ".dot"@.len());
        assert((b + ".dot"@).len() == b.len() + ".dot"@.len());
        assert(a.len() == b.len());
        assert(a =~= (a + ".dot"@).take(a.len() as int));
        assert(b =~= (b + ".dot"@).take(b.len() as int));
    }
    if a == b {
        assert(a + ".dot"@ =~= b + ".dot"@);
    }
}

/// The identifier and name pairs of the function items of `items`, in
/// declaration order.
pub open spec fn selected_units(items: Seq<Item>) -> Seq<(u64, Seq<char>)>
    decreases items.len(),
{
    if items.len() == 0 {
        Seq::empty()
    } else {
        let prefix = selected_units(items.drop_last());
        if items.last().kind is Function {
            prefix.push((items.last().id, items.last().name@))
        } else {
            prefix
        }
    }
}

/// The identifier and name pairs a unit sequence stands for.
pub open spec fn unit_reprs(units: Seq<Unit>) -> Seq<(u64, Seq<char>)> {
    units.map_values(|u: Unit| (u.id, u.name@))
}

/// Retains the items whose kind is `Function`, preserving declaration
/// order; each function item yields exactly one unit. A pure filter: an
/// empty input yields an empty output.
pub fn select_units(items: &Vec<Item>) -> (r: Vec<Unit>)
    ensures
        unit_reprs(r@) == selected_units(items@),
{
    let mut r: Vec<Unit> = Vec::new();
    let mut i: usize = 0;
    while i < items.len()
        invariant
            i <= items@.len(),
            unit_reprs(r@) == selected_units(items@.take(i as int)),
        decreases items@.len() - i,
    {
        let item = &items[i];
        match item.kind {
            ItemKind::Function => {
                r.push(Unit { id: item.id, name: item.name.clone() });
            },
            _ => {},
        }
        proof {
            assert(items@.take(i + 1).drop_last() =~= items@.take(i as int));
            assert(items@.take(i + 1).last() == items@[i as int]);
            assert(unit_reprs(r@) =~= selected_units(items@.take(i + 1)));
        }
        i += 1;
    }
    proof {
        assert(items@.take(items@.len() as int) =~= items@);
    }
    r
}

/// Whether all names in the sequence are pairwise distinct.
pub open spec fn names_distinct(names: Seq<Seq<char>>) -> bool {
    forall|a: int, b: int| 0 <= a < b < names.len() ==> names[a] != names[b]
}

/// The display names of a unit sequence.
pub open spec fn unit_names(units: Seq<Unit>) -> Seq<Seq<char>> {
    units.map_values(|u: Unit| u.name@)
}

/// Looks for two units sharing a display name, which would make the sinks
/// derived from those names collide. Returns the first such pair (smallest
/// first index, then smallest second index), or `None` when all names are
/// distinct.
pub fn find_name_collision(units: &Vec<Unit>) -> (r: Option<(usize, usize)>)
    ensures
        r is None <==> names_distinct(unit_names(units@)),
        r matches Some(p) ==> {
            &&& p.0 < p.1 < units@.len()
            &&& unit_names(units@)[p.0 as int] == unit_names(units@)[p.1 as int]
            &&& forall|a: int, b: int|
                0 <= a < b < units@.len() && a < p.0 ==> unit_names(units@)[a] != unit_names(
                    units@,
                )[b]
            &&& forall|b: int|
                p.0 < b < p.1 ==> unit_names(units@)[p.0 as int] != #[trigger] unit_names(
                    units@,
                )[b]
        },
{
    let ghost names = unit_names(units@);
    let mut i: usize = 0;
    while i < units.len()
        invariant
            i <= units@.len(),
            names == unit_names(units@),
            forall|a: int, b: int| 0 <= a < b < units@.len() && a < i ==> names[a] != names[b],
        decreases units@.len() - i,
    {
        let mut j: usize = i + 1;
        while j < units.len()
            invariant
                i < j <= units@.len(),
                i < units@.len(),
                names == unit_names(units@),
                forall|a: int, b: int| 0 <= a < b < units@.len() && a < i ==> names[a] != names[b],
                forall|b: int| i < b < j ==> names[i as int] != #[trigger] names[b],
            decreases units@.len() - j,
        {
            if units[i].name == units[j].name {
                proof {
                    assert(units@[i as int].name@ == units@[j as int].name@);
                    assert(names[i as int] == names[j as int]);
                    assert(!names_distinct(names));
                }
                return Some((i, j));
            }
            j += 1;
        }
        i += 1;
    }
    None
}

} // verus!
