//! The quick-slot table: a fixed number of shortcut keys, each naming a
//! profile by its index in the profile list.
use vstd::prelude::*;

verus! {

/// Number of quick slots.
pub const QUICK_SLOT_COUNT: usize = 5;

/// What a slot holds after the profile at `removed` leaves the list: a
/// slot naming it is cleared, one naming a later profile follows it down by
/// one, any other is untouched.
pub open spec fn slot_after_removal(slot: Option<usize>, removed: usize) -> Option<usize> {
    match slot {
        Some(j) => if j == removed {
            None
        } else if j > removed {
            Some((j - 1) as usize)
        } else {
            Some(j)
        },
        None => None,
    }
}

/// Slots for a freshly loaded list of `n` profiles: the first profiles in
/// order, as far as the slots reach.
pub fn initial_slots(n: usize) -> (r: [Option<usize>; 5])
    ensures
        forall|k: int| 0 <= k < 5 ==> r@[k] == if k < n { Some(k as usize) } else { None::<usize> },
{
    let mut r: [Option<usize>; 5] = [None, None, None, None, None];
    let mut k: usize = 0;
    while k < QUICK_SLOT_COUNT
        invariant
            k <= 5,
            forall|j: int| 0 <= j < k ==> r@[j] == if j < n { Some(j as usize) } else { None::<usize> },
            forall|j: int| k <= j < 5 ==> r@[j] == None::<usize>,
        decreases 5 - k,
    {
        if k < n {
            r[k] = Some(k);
        }
        k = k + 1;
    }
    r
}

/// Adjusts the slots after the profile at `removed` was deleted.
pub fn remove_from_slots(slots: &mut [Option<usize>; 5], removed: usize)
    ensures
        forall|k: int| 0 <= k < 5 ==> final(slots)@[k] == slot_after_removal(old(slots)@[k], removed),
{
    let mut k: usize = 0;
    while k < QUICK_SLOT_COUNT
        invariant
            k <= 5,
            forall|j: int| 0 <= j < k ==> slots@[j] == slot_after_removal(old(slots)@[j], removed),
            forall|j: int| k <= j < 5 ==> slots@[j] == old(slots)@[j],
        decreases 5 - k,
    {
        let next = match slots[k] {
            Some(j) => if j == removed {
                None
            } else if j > removed {
                Some(j - 1)
            } else {
                Some(j)
            },
            None => None,
        };
        slots[k] = next;
        k = k + 1;
    }
}

/// The slots with profile `idx` put into the first empty one; unchanged
/// when all are taken.
pub open spec fn with_free_slot(slots: Seq<Option<usize>>, idx: usize) -> Seq<Option<usize>> {
    if exists|k: int| 0 <= k < slots.len() && slots[k] is None {
        let k = choose|k: int|
            0 <= k < slots.len() && slots[k] is None && forall|j: int| 0 <= j < k ==> slots[j] is Some;
        slots.update(k, Some(idx))
    } else {
        slots
    }
}

/// Puts profile `idx` into the first empty slot, if there is one.
pub fn assign_free_slot(slots: &mut [Option<usize>; 5], idx: usize)
    ensures
        final(slots)@ == with_free_slot(old(slots)@, idx),
{
    let mut k: usize = 0;
    while k < QUICK_SLOT_COUNT
        invariant
            k <= 5,
            slots@ == old(slots)@,
            forall|j: int| 0 <= j < k ==> old(slots)@[j] is Some,
        decreases 5 - k,
    {
        if slots[k].is_none() {
            slots[k] = Some(idx);
            assert(slots@ =~= old(slots)@.update(k as int, Some(idx)));
            proof {
                let s0 = old(slots)@;
                assert(0 <= k < s0.len() && s0[k as int] is None && forall|j: int| 0 <= j < k ==> s0[j] is Some);
                let c = choose|c: int| 0 <= c < s0.len() && s0[c] is None && forall|j: int| 0 <= j < c ==> s0[j] is Some;
                if c < k {
                    assert(s0[c] is Some);
                } else if c > k {
                    assert(s0[k as int] is Some);
                }
            }
            return;
        }
        k = k + 1;
    }
}

} // verus!
