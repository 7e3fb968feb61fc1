use vstd::prelude::*;

verus! {

/// Which panel is currently focused.
#[derive(Debug, Clone, Copy, PartialEq, Eq, Structural)]
pub enum Focus {
    Courses,
    Categories,
    Evaluations,
}

impl Focus {
    /// The next panel to the right, wrapping from evaluations to courses (Tab).
    pub fn cycled(self) -> (f: Focus)
        ensures
            f == match self {
                Focus::Courses => Focus::Categories,
                Focus::Categories => Focus::Evaluations,
                Focus::Evaluations => Focus::Courses,
            },
    {
        match self {
            Focus::Courses => Focus::Categories,
            Focus::Categories => Focus::Evaluations,
            Focus::Evaluations => Focus::Courses,
        }
    }

    /// The panel to the left, stopping at courses.
    pub fn left(self) -> (f: Focus)
        ensures
            f == match self {
                Focus::Courses | Focus::Categories => Focus::Courses,
                Focus::Evaluations => Focus::Categories,
            },
    {
        match self {
            Focus::Courses | Focus::Categories => Focus::Courses,
            Focus::Evaluations => Focus::Categories,
        }
    }

    /// The panel to the right, stopping at evaluations.
    pub fn right(self) -> (f: Focus)
        ensures
            f == match self {
                Focus::Courses => Focus::Categories,
                Focus::Categories | Focus::Evaluations => Focus::Evaluations,
            },
    {
        match self {
            Focus::Courses => Focus::Categories,
            Focus::Categories | Focus::Evaluations => Focus::Evaluations,
        }
    }
}

/// Selection after moving down a list of `len` rows: the first row when
/// nothing was selected, otherwise one further, stopping at the last row.
pub open spec fn spec_select_next(selected: Option<usize>, len: usize) -> Option<usize> {
    if len == 0 {
        None
    } else {
        match selected {
            Some(i) => Some(if i + 1 < len { (i + 1) as usize } else { (len - 1) as usize }),
            None => Some(0),
        }
    }
}

/// Selection after moving up a list of `len` rows: the first row when
/// nothing was selected, otherwise one back, stopping at the first row.
pub open spec fn spec_select_previous(selected: Option<usize>, len: usize) -> Option<usize> {
    if len == 0 {
        None
    } else {
        match selected {
            Some(i) => Some(if i > 0 { (i - 1) as usize } else { 0 }),
            None => Some(0),
        }
    }
}

/// Move a selection down a list of `len` rows.
pub fn select_next(selected: Option<usize>, len: usize) -> (r: Option<usize>)
    ensures
        r == spec_select_next(selected, len),
{
    if len == 0 {
        return None;
    }
    match selected {
        Some(i) => Some(if i < len - 1 { i + 1 } else { len - 1 }),
        None => Some(0),
    }
}

/// Move a selection up a list of `len` rows.
pub fn select_previous(selected: Option<usize>, len: usize) -> (r: Option<usize>)
    ensures
        r == spec_select_previous(selected, len),
{
    if len == 0 {
        return None;
    }
    match selected {
        Some(i) => Some(if i > 0 { i - 1 } else { 0 }),
        None => Some(0),
    }
}

/// The first row of a list of `len` rows, if there is one.
pub fn select_first(len: usize) -> (r: Option<usize>)
    ensures
        r == (if len == 0 { None } else { Some(0usize) }),
{
    if len == 0 {
        None
    } else {
        Some(0)
    }
}

/// The last row of a list of `len` rows, if there is one.
pub fn select_last(len: usize) -> (r: Option<usize>)
    ensures
        r == (if len == 0 { None } else { Some((len - 1) as usize) }),
{
    if len == 0 {
        None
    } else {
        Some(len - 1)
    }
}

/// Selection once the row at `removed` is gone and `remaining` rows are
/// left: the row that took its place, or the new last row.
pub fn select_after_removal(removed: usize, remaining: usize) -> (r: Option<usize>)
    ensures
        r == (if remaining == 0 {
            None
        } else if removed < remaining {
            Some(removed)
        } else {
            Some((remaining - 1) as usize)
        }),
{
    if remaining == 0 {
        None
    } else if removed < remaining {
        Some(removed)
    } else {
        Some(remaining - 1)
    }
}

/// The entry after `i` in a ring of `count` entries (unchanged when the ring
/// is empty).
pub open spec fn spec_ring_next(i: int, count: int) -> int {
    if count > 0 {
        (i + 1) % count
    } else {
        i
    }
}

/// The entry before `i` in a ring of `count` entries: the last one from the
/// first (unchanged when the ring is empty).
pub open spec fn spec_ring_previous(i: int, count: int) -> int {
    if count == 0 {
        i
    } else if i == 0 {
        count - 1
    } else {
        i - 1
    }
}

/// Step forward around a ring of `count` entries.
pub fn ring_next(i: usize, count: usize) -> (r: usize)
    requires
        i < usize::MAX,
    ensures
        r == spec_ring_next(i as int, count as int),
{
    if count > 0 {
        (i + 1) % count
    } else {
        i
    }
}

/// Step backward around a ring of `count` entries.
pub fn ring_previous(i: usize, count: usize) -> (r: usize)
    ensures
        r == spec_ring_previous(i as int, count as int),
{
    if count == 0 {
        i
    } else if i == 0 {
        count - 1
    } else {
        i - 1
    }
}

/// On a ring, a step forward and a step back undo each other, and every
/// step stays on the ring.
pub proof fn lemma_ring_round_trip(i: int, count: int)
    requires
        0 <= i < count,
    ensures
        0 <= spec_ring_next(i, count) < count,
        0 <= spec_ring_previous(i, count) < count,
        spec_ring_previous(spec_ring_next(i, count), count) == i,
        spec_ring_next(spec_ring_previous(i, count), count) == i,
{
    if i + 1 < count {
        vstd::arithmetic::div_mod::lemma_small_mod((i + 1) as nat, count as nat);
    } else {
        assert((i + 1) % count == 0) by (nonlinear_arith)
            requires
                i + 1 == count,
                count > 0,
        ;
    }
    let p = spec_ring_previous(i, count);
    vstd::arithmetic::div_mod::lemma_small_mod(i as nat, count as nat);
    if p + 1 < count {
        vstd::arithmetic::div_mod::lemma_small_mod((p + 1) as nat, count as nat);
    } else {
        assert((p + 1) % count == 0) by (nonlinear_arith)
            requires
                p + 1 == count,
                count > 0,
        ;
    }
}

/// Whether row 0 of the template picker, the AI import entry, is selected.
pub fn is_ai_entry(selected: usize) -> (b: bool)
    ensures
        b == (selected == 0),
{
    selected == 0
}

/// The position among the real templates of the picker row `selected`
/// (row 0 is the AI import entry, which is no template).
pub fn template_position(selected: usize) -> (r: Option<usize>)
    ensures
        r == (if selected == 0 { None } else { Some((selected - 1) as usize) }),
{
    if selected == 0 {
        None
    } else {
        Some(selected - 1)
    }
}

/// Rows in the template picker: the AI entry plus every real template.
pub fn picker_rows(built_in: usize, user: usize) -> (n: usize)
    requires
        built_in + user < usize::MAX,
    ensures
        n == 1 + built_in + user,
{
    1 + built_in + user
}

} // verus!
