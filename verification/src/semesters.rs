use vstd::prelude::*;
use crate::text::{decimal, lemma_decimal_injective, numbered, numbered_name};

verus! {

/// Auto-generated name for the semester at `order`, e.g. "Semester 1":
/// the prefix and the order counted from one. Only a starting point; the
/// user renames it.
pub fn semester_name(prefix: &str, order: u32) -> (out: String)
    requires
        order < u32::MAX,
    ensures
        out@ == numbered(prefix@, (order + 1) as nat),
{
    numbered_name(prefix, (order + 1) as usize)
}

/// Display order for a semester appended after the one with order `last`
/// (the first semester gets 0).
pub fn next_semester_order(last: Option<u32>) -> (o: u32)
    requires
        last != Some(u32::MAX),
    ensures
        o == match last {
            Some(l) => l + 1,
            None => 0,
        },
{
    match last {
        Some(l) => l + 1,
        None => 0,
    }
}

/// Semesters at different orders get different generated names.
pub proof fn lemma_semester_names_distinct(prefix: Seq<char>, a: nat, b: nat)
    requires
        a != b,
    ensures
        numbered(prefix, a + 1) != numbered(prefix, b + 1),
{
    if numbered(prefix, a + 1) == numbered(prefix, b + 1) {
        let head = prefix + seq![' '];
        assert(numbered(prefix, a + 1) == head + decimal(a + 1));
        assert(numbered(prefix, b + 1) == head + decimal(b + 1));
        assert((head + decimal(a + 1)).skip(head.len() as int) =~= decimal(a + 1));
        assert((head + decimal(b + 1)).skip(head.len() as int) =~= decimal(b + 1));
        lemma_decimal_injective(a + 1, b + 1);
    }
}

/// Whether `i` is the first position of `id` in `ids`.
pub open spec fn is_first_id(ids: Seq<u128>, id: u128, i: int) -> bool {
    0 <= i < ids.len() && ids[i] == id && forall|j: int| 0 <= j < i ==> ids[j] != id
}

/// The semester to reopen at start, given the semesters' ids in display order
/// and the id saved when the program last closed: the one with that id, else
/// the last one; `None` only when there are no semesters.
pub fn reopened_semester(ids: &[u128], saved: Option<u128>) -> (r: Option<usize>)
    ensures
        ids@.len() == 0 <==> r is None,
        match saved {
            Some(id) => if ids@.contains(id) {
                r is Some && is_first_id(ids@, id, r->0 as int)
            } else {
                ids@.len() > 0 ==> r == Some((ids@.len() - 1) as usize)
            },
            None => ids@.len() > 0 ==> r == Some((ids@.len() - 1) as usize),
        },
{
    if let Some(id) = saved {
        let mut i: usize = 0;
        while i < ids.len()
            invariant
                i <= ids@.len(),
                saved == Some(id),
                forall|j: int| 0 <= j < i ==> ids@[j] != id,
            decreases ids@.len() - i,
        {
            if ids[i] == id {
                assert(ids@[i as int] == id);
                assert(ids@.contains(id));
                return Some(i);
            }
            i = i + 1;
        }
        assert(!ids@.contains(id));
    }
    if ids.len() == 0 {
        None
    } else {
        Some(ids.len() - 1)
    }
}

} // verus!
