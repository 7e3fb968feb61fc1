use vstd::prelude::*;

verus! {

/// `s` with the entries at `i` and `j` exchanged.
pub open spec fn swapped<T>(s: Seq<T>, i: int, j: int) -> Seq<T> {
    s.update(i, s[j]).update(j, s[i])
}

fn swap_adjacent<T>(items: &mut Vec<T>, i: usize)
    requires
        i + 1 < old(items)@.len(),
    ensures
        final(items)@ == swapped(old(items)@, i as int, i + 1),
{
    let len = items.len();
    assert(i < len);
    let x = items.remove(i + 1);
    items.insert(i, x);
    assert(items@ =~= swapped(old(items)@, i as int, i + 1));
}

/// Move the entry at `idx` one place towards the front; returns where it
/// now is. The first entry stays put.
pub fn move_up<T>(items: &mut Vec<T>, idx: usize) -> (r: usize)
    requires
        idx < old(items)@.len(),
    ensures
        idx == 0 ==> final(items)@ == old(items)@ && r == idx,
        idx > 0 ==> final(items)@ == swapped(old(items)@, idx - 1, idx as int) && r == idx - 1,
{
    if idx == 0 || items.len() < 2 {
        return idx;
    }
    swap_adjacent(items, idx - 1);
    idx - 1
}

/// Move the entry at `idx` one place towards the back; returns where it now
/// is. The last entry stays put.
pub fn move_down<T>(items: &mut Vec<T>, idx: usize) -> (r: usize)
    requires
        idx < old(items)@.len(),
    ensures
        idx + 1 >= old(items)@.len() ==> final(items)@ == old(items)@ && r == idx,
        idx + 1 < old(items)@.len() ==> final(items)@ == swapped(old(items)@, idx as int, idx + 1)
            && r == idx + 1,
{
    let len = items.len();
    if idx >= len - 1 {
        return idx;
    }
    swap_adjacent(items, idx);
    idx + 1
}

/// Remove the selected entry unless it is the only one; returns the new
/// selection, or `None` when nothing was removed.
///
/// A selection past the end stands for the last entry.
pub fn remove_selected<T>(items: &mut Vec<T>, idx: usize) -> (r: Option<usize>)
    ensures
        old(items)@.len() <= 1 ==> final(items)@ == old(items)@ && r is None,
        old(items)@.len() > 1 ==> ({
            let at = if idx < old(items)@.len() { idx as int } else { old(items)@.len() - 1 };
            &&& final(items)@ == old(items)@.remove(at)
            &&& r == Some(
                (if at < final(items)@.len() { at } else { final(items)@.len() - 1 }) as usize,
            )
        }),
{
    let len = items.len();
    if len <= 1 {
        return None;
    }
    let at = if idx < len { idx } else { len - 1 };
    let _ = items.remove(at);
    let remaining = items.len();
    Some(if at < remaining { at } else { remaining - 1 })
}

/// Moving an entry up and then back down restores the order it had.
pub proof fn lemma_move_round_trip<T>(s: Seq<T>, i: int)
    requires
        0 <= i,
        i + 1 < s.len(),
    ensures
        swapped(swapped(s, i, i + 1), i, i + 1) == s,
        swapped(s, i, i + 1).len() == s.len(),
{
    assert(swapped(swapped(s, i, i + 1), i, i + 1) =~= s);
}

} // verus!
