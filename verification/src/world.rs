use vstd::prelude::*;

use crate::geometry::Point;
use crate::selection::SelectionBox;

verus! {

/// One entity as the selection passes see it: its world position,
/// whether it may be selected at all, and the two tags the passes
/// maintain — `selected` for selection state and `border` for the
/// highlight ring drawn around it.
#[derive(Clone, Copy, Debug, PartialEq, Eq, Structural)]
pub struct Unit {
    pub pos: Point,
    pub selectable: bool,
    pub selected: bool,
    pub border: bool,
}

/// What one unit becomes when a finished selection box is applied: a
/// selectable unit inside the box gains the selected and border tags;
/// every other unit is left as it was.
pub open spec fn unit_after_select(u: Unit, finished: SelectionBox) -> Unit {
    if u.selectable && finished.spec_within(u.pos) {
        Unit { selected: true, border: true, ..u }
    } else {
        u
    }
}

/// What one unit becomes on a deselect: a selectable unit loses both
/// tags; a unit that is not selectable is left as it was.
pub open spec fn unit_after_deselect(u: Unit) -> Unit {
    if u.selectable {
        Unit { selected: false, border: false, ..u }
    } else {
        u
    }
}

/// Applies a finished selection box to every unit: each selectable
/// unit whose position is within the box gains the selected and
/// border tags. With no finished box (no drag ended this frame)
/// nothing changes.
pub fn select_entities(units: &mut Vec<Unit>, finished: Option<SelectionBox>)
    ensures
        finished is None ==> final(units)@ == old(units)@,
        finished matches Some(sel) ==> {
            &&& final(units)@.len() == old(units)@.len()
            &&& forall|i: int|
                0 <= i < old(units)@.len() ==> final(units)@[i] == unit_after_select(
                    old(units)@[i],
                    sel,
                )
        },
{
    let sel = match finished {
        None => {
            return;
        },
        Some(s) => s,
    };

    let n = units.len();
    let mut i: usize = 0;
    while i < n
        invariant
            i <= n,
            n == units@.len(),
            units@.len() == old(units)@.len(),
            forall|j: int| 0 <= j < i ==> units@[j] == unit_after_select(old(units)@[j], sel),
            forall|j: int| i <= j < n ==> units@[j] == old(units)@[j],
        decreases n - i,
    {
        let u = units[i];
        if u.selectable && sel.within_selection(u.pos) {
            units[i] = Unit { selected: true, border: true, ..u };
        }
        i += 1;
    }
}

/// Clears the selection when a deselect was requested: every
/// selectable unit loses the selected and border tags. Without a
/// request nothing changes.
pub fn deselect(units: &mut Vec<Unit>, requested: bool)
    ensures
        !requested ==> final(units)@ == old(units)@,
        requested ==> {
            &&& final(units)@.len() == old(units)@.len()
            &&& forall|i: int|
                0 <= i < old(units)@.len() ==> final(units)@[i] == unit_after_deselect(
                    old(units)@[i],
                )
        },
{
    if !requested {
        return;
    }

    let n = units.len();
    let mut i: usize = 0;
    while i < n
        invariant
            i <= n,
            n == units@.len(),
            units@.len() == old(units)@.len(),
            forall|j: int| 0 <= j < i ==> units@[j] == unit_after_deselect(old(units)@[j]),
            forall|j: int| i <= j < n ==> units@[j] == old(units)@[j],
        decreases n - i,
    {
        let u = units[i];
        if u.selectable {
            units[i] = Unit { selected: false, border: false, ..u };
        }
        i += 1;
    }
}

/// The positions of the units that carry the border tag, in unit
/// order: where the highlight rings are to be drawn.
pub open spec fn border_positions_of(s: Seq<Unit>) -> Seq<Point>
    decreases s.len(),
{
    if s.len() == 0 {
        Seq::empty()
    } else if s.last().border {
        border_positions_of(s.drop_last()).push(s.last().pos)
    } else {
        border_positions_of(s.drop_last())
    }
}

/// Collects the position of every unit that carries the border tag,
/// in unit order: one highlight ring is drawn around each.
pub fn border_positions(units: &Vec<Unit>) -> (r: Vec<Point>)
    ensures
        r@ == border_positions_of(units@),
{
    let n = units.len();
    let mut r: Vec<Point> = Vec::new();
    let mut i: usize = 0;
    while i < n
        invariant
            i <= n,
            n == units@.len(),
            r@ == border_positions_of(units@.take(i as int)),
        decreases n - i,
    {
        let u = units[i];
        proof {
            assert(units@.take(i + 1).drop_last() =~= units@.take(i as int));
            assert(units@.take(i + 1).last() == units@[i as int]);
        }
        if u.border {
            r.push(u.pos);
        }
        i += 1;
    }
    proof {
        assert(units@.take(n as int) =~= units@);
    }
    r
}

/// A deselect wipes out whatever a selection pass tagged: deselecting
/// after applying any box leaves a unit exactly as deselecting alone
/// would.
pub proof fn lemma_deselect_clears_select(u: Unit, sel: SelectionBox)
    ensures
        unit_after_deselect(unit_after_select(u, sel)) == unit_after_deselect(u),
{
}

} // verus!
