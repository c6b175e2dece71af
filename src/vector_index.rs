use vstd::prelude::*;

use std::collections::HashSet;

verus! {

broadcast use vstd::std_specs::hash::group_hash_axioms;

/// Slots reserved when an index is created or reset, and kept free beyond the
/// current need when it grows.
pub const CAPACITY_HEADROOM: usize = 1000;

/// How many results a distance-bounded search asks for at each step.
pub const FAST_SEARCH_STEP_COUNTS: [usize; 5] = [200, 500, 2000, 5000, 10000];

/// The `i`-th step count of the expanding search.
pub open spec fn step_count(i: int) -> nat {
    if i == 0 {
        200
    } else if i == 1 {
        500
    } else if i == 2 {
        2000
    } else if i == 3 {
        5000
    } else {
        10000
    }
}

/// The smaller of two numbers.
pub open spec fn min_nat(a: nat, b: nat) -> nat {
    if a <= b {
        a
    } else {
        b
    }
}

/// The result count of the first step from `i` on that, capped at the index
/// size, asks for more than `previous`; after the last step, the whole index
/// when that is more than `previous`.
pub open spec fn next_count_from(index_size: nat, previous: nat, i: int) -> Option<nat>
    decreases 5 - i,
{
    if i >= 5 {
        if previous < index_size {
            Some(index_size)
        } else {
            None
        }
    } else if min_nat(step_count(i), index_size) > previous {
        Some(min_nat(step_count(i), index_size))
    } else {
        next_count_from(index_size, previous, i + 1)
    }
}

/// How much to reserve before adding `margin` entries to an index holding
/// `size` of `capacity`: `size + margin` when that leaves less than the headroom
/// free, else nothing.
pub fn capacity_reservation(size: usize, margin: usize, capacity: usize) -> (r: Option<usize>)
    requires
        size + margin + CAPACITY_HEADROOM <= usize::MAX,
    ensures
        size + margin + CAPACITY_HEADROOM >= capacity ==> r == Some((size + margin) as usize),
        size + margin + CAPACITY_HEADROOM < capacity ==> r is None,
{
    if size + margin + CAPACITY_HEADROOM >= capacity {
        Some(size + margin)
    } else {
        None
    }
}

/// The result count of the next step of a distance-bounded search over an index
/// of `index_size` entries, after a step that asked for `previous_count` (0
/// before the first). `None` when no step asks for more.
pub fn next_search_count(index_size: usize, previous_count: usize) -> (r: Option<usize>)
    ensures
        r matches Some(c) ==> Some(c as nat) == next_count_from(
            index_size as nat,
            previous_count as nat,
            0,
        ),
        r is None ==> next_count_from(index_size as nat, previous_count as nat, 0) is None,
        r matches Some(c) ==> previous_count < c <= index_size,
        r is None <==> previous_count >= index_size,
{
    let mut i: usize = 0;
    while i < 5
        invariant
            i <= 5,
            next_count_from(index_size as nat, previous_count as nat, 0) == next_count_from(
                index_size as nat,
                previous_count as nat,
                i as int,
            ),
            forall|k: int| 0 <= k < i ==> min_nat(step_count(k), index_size as nat) <= previous_count,
        decreases 5 - i,
    {
        let step = FAST_SEARCH_STEP_COUNTS[i];
        assert(step == step_count(i as int));
        let count = if step < index_size {
            step
        } else {
            index_size
        };
        if count > previous_count {
            return Some(count);
        }
        i = i + 1;
    }
    if previous_count < index_size {
        Some(index_size)
    } else {
        None
    }
}

/// After a step that asked for `count` results, the search goes on when the
/// index holds more and the farthest result returned was still within range.
pub fn should_expand_search(count: usize, index_size: usize, last_within_range: bool) -> (r: bool)
    ensures
        r == (count < index_size && last_within_range),
{
    count < index_size && last_within_range
}

/// The allowed keys of a filtered search, without repetitions.
pub fn allowed_key_set(keys: &[u64]) -> (r: HashSet<u64>)
    ensures
        r@ == keys@.to_set(),
{
    let mut set: HashSet<u64> = HashSet::new();
    let mut i: usize = 0;
    while i < keys.len()
        invariant
            i <= keys@.len(),
            set@ == keys@.subrange(0, i as int).to_set(),
        decreases keys@.len() - i,
    {
        set.insert(keys[i]);
        proof {
            let before = keys@.subrange(0, i as int);
            let after = keys@.subrange(0, i + 1);
            assert(after =~= before.push(keys@[i as int]));
            before.lemma_push_to_set_commute(keys@[i as int]);
        }
        i = i + 1;
    }
    assert(keys@.subrange(0, keys@.len() as int) =~= keys@);
    set
}

/// How many results a filtered search asks for: at most `count`, at most one
/// per distinct allowed key, at most the index size.
pub fn filtered_search_count(count: usize, distinct_allowed: usize, index_size: usize) -> (r: usize)
    ensures
        r == min_nat(min_nat(count as nat, distinct_allowed as nat), index_size as nat),
{
    let a = if count < distinct_allowed {
        count
    } else {
        distinct_allowed
    };
    if a < index_size {
        a
    } else {
        index_size
    }
}

} // verus!
