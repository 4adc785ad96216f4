//! Allocation of identifiers, each distinct from every identifier that is
//! still in use.

use std::collections::HashSet;
use vstd::prelude::*;

verus! {

broadcast use vstd::std_specs::hash::group_hash_axioms;

/// The `k`-th candidate after `start`, counting upwards and going on from
/// zero after the largest identifier. Meant for `0 <= k <= usize::MAX + 1`.
pub open spec fn candidate(start: usize, k: int) -> usize {
    if start + k <= usize::MAX {
        (start + k) as usize
    } else {
        (start + k - usize::MAX - 1) as usize
    }
}

/// What a registry holds: the candidate that the next allocation tries
/// first, and the identifiers in use.
#[verifier::ext_equal]
pub struct RegistryView {
    pub counter: usize,
    pub live: Set<usize>,
}

impl RegistryView {
    /// The registry that has handed out nothing yet.
    pub open spec fn empty() -> RegistryView {
        RegistryView { counter: 0, live: Set::empty() }
    }

    /// Some identifier is free: the identifiers in use are finitely many,
    /// and fewer than there are identifiers.
    pub open spec fn has_room(self) -> bool {
        self.live.finite() && self.live.len() <= usize::MAX
    }

    /// The first `k` candidates are in use and the next one is free.
    pub open spec fn skips(self, k: int) -> bool {
        &&& 0 <= k <= usize::MAX
        &&& !self.live.contains(candidate(self.counter, k))
        &&& forall|j: int| 0 <= j < k ==> self.live.contains(#[trigger] candidate(self.counter, j))
    }

    /// The number of candidates in use that the next allocation passes over.
    pub open spec fn skipped(self) -> int {
        choose|k: int| self.skips(k)
    }

    /// The identifier that the next allocation returns: the first candidate,
    /// from the counter upwards and round past the largest identifier, that
    /// is not in use.
    pub open spec fn next_id(self) -> usize {
        candidate(self.counter, self.skipped())
    }

    /// The registry after the next allocation: the identifier is in use,
    /// and the counter stands behind it.
    pub open spec fn allocate(self) -> RegistryView {
        RegistryView {
            counter: candidate(self.next_id(), 1),
            live: self.live.insert(self.next_id()),
        }
    }

    /// The registry after `n` allocations.
    pub open spec fn allocate_many(self, n: nat) -> RegistryView
        decreases n,
    {
        if n == 0 {
            self
        } else {
            self.allocate().allocate_many((n - 1) as nat)
        }
    }

    /// The identifiers that `n` allocations return, in the order of the calls.
    pub open spec fn next_ids(self, n: nat) -> Seq<usize>
        decreases n,
    {
        if n == 0 {
            Seq::empty()
        } else {
            seq![self.next_id()] + self.allocate().next_ids((n - 1) as nat)
        }
    }
}

/// Candidates at different places of one round are different identifiers.
pub proof fn lemma_candidates_differ(start: usize, j: int, k: int)
    requires
        0 <= j < k <= usize::MAX,
    ensures
        candidate(start, j) != candidate(start, k),
{
}

/// The candidates after the first are the candidates of the next counter.
pub proof fn lemma_candidate_shift(start: usize, k: int)
    requires
        0 <= k <= usize::MAX,
    ensures
        candidate(candidate(start, 1), k) == candidate(start, k + 1),
{
}

/// Where the first `k` candidates are all in use, at least `k` identifiers
/// are in use.
pub proof fn lemma_used_candidates_are_counted(live: Set<usize>, start: usize, k: int)
    requires
        live.finite(),
        0 <= k <= usize::MAX + 1,
        forall|j: int| 0 <= j < k ==> live.contains(#[trigger] candidate(start, j)),
    ensures
        k <= live.len(),
    decreases k,
{
    if k > 0 {
        assert(live.contains(candidate(start, 0)));
        let rest = live.remove(start);
        let next = candidate(start, 1);
        assert forall|j: int| 0 <= j < k - 1 implies rest.contains(#[trigger] candidate(next, j)) by {
            lemma_candidate_shift(start, j);
            lemma_candidates_differ(start, 0, j + 1);
            assert(live.contains(candidate(start, j + 1)));
        }
        lemma_used_candidates_are_counted(rest, next, k - 1);
    }
}

/// A registry with room skips some number of candidates and then finds a
/// free one.
pub proof fn lemma_room_gives_free_candidate(v: RegistryView)
    requires
        v.has_room(),
    ensures
        v.skips(v.skipped()),
        !v.live.contains(v.next_id()),
{
    let k = lemma_free_candidate_from(v, 0);
    assert(v.skips(k));
}

/// Searches upwards from the `from`-th candidate for the first free one.
proof fn lemma_free_candidate_from(v: RegistryView, from: int) -> (k: int)
    requires
        v.has_room(),
        0 <= from <= usize::MAX,
        forall|j: int| 0 <= j < from ==> v.live.contains(#[trigger] candidate(v.counter, j)),
    ensures
        v.skips(k),
    decreases usize::MAX - from,
{
    if !v.live.contains(candidate(v.counter, from)) {
        from
    } else {
        lemma_used_candidates_are_counted(v.live, v.counter, from + 1);
        lemma_free_candidate_from(v, from + 1)
    }
}

/// Only one number of skipped candidates fits a registry.
pub proof fn lemma_skips_is_unique(v: RegistryView, k: int)
    requires
        v.skips(k),
    ensures
        v.skipped() == k,
        v.next_id() == candidate(v.counter, k),
{
    let c = v.skipped();
    assert(v.skips(c));
    if c < k {
        assert(v.live.contains(candidate(v.counter, c)));
    } else if k < c {
        assert(v.live.contains(candidate(v.counter, k)));
    }
}

/// An allocation keeps the identifiers in use finite, and every identifier
/// that was in use stays in use.
pub proof fn lemma_allocate_grows(v: RegistryView)
    requires
        v.has_room(),
    ensures
        v.allocate().live.finite(),
        v.allocate().live.len() == v.live.len() + 1,
        v.live.subset_of(v.allocate().live),
        v.allocate().live.contains(v.next_id()),
{
    lemma_room_gives_free_candidate(v);
}

/// What `n` allocations return was free before them and is in use after them.
pub proof fn lemma_next_ids_become_live(v: RegistryView, n: nat)
    requires
        v.live.finite(),
        v.live.len() + n <= usize::MAX + 1,
    ensures
        v.next_ids(n).len() == n,
        v.allocate_many(n).live.finite(),
        v.allocate_many(n).live.len() == v.live.len() + n,
        v.live.subset_of(v.allocate_many(n).live),
        forall|i: int|
            0 <= i < n ==> !v.live.contains(#[trigger] v.next_ids(n)[i]) && v.allocate_many(
                n,
            ).live.contains(v.next_ids(n)[i]),
    decreases n,
{
    if n > 0 {
        let m = (n - 1) as nat;
        let w = v.allocate();
        lemma_allocate_grows(v);
        lemma_room_gives_free_candidate(v);
        lemma_next_ids_become_live(w, m);
        assert forall|i: int| 0 <= i < n implies !v.live.contains(#[trigger] v.next_ids(n)[i])
            && v.allocate_many(n).live.contains(v.next_ids(n)[i]) by {
            if i > 0 {
                assert(v.next_ids(n)[i] == w.next_ids(m)[i - 1]);
            }
        }
    }
}

/// The identifiers that any number of allocations return are pairwise
/// distinct, and distinct from every identifier that was in use before
/// the first of them. It holds as long as each allocation finds a free
/// identifier, that is, as long as the identifiers do not run out.
pub proof fn lemma_allocated_ids_are_distinct(v: RegistryView, n: nat)
    requires
        v.live.finite(),
        v.live.len() + n <= usize::MAX + 1,
    ensures
        v.next_ids(n).no_duplicates(),
        forall|i: int| 0 <= i < v.next_ids(n).len() ==> !v.live.contains(#[trigger] v.next_ids(n)[i]),
    decreases n,
{
    lemma_next_ids_become_live(v, n);
    if n > 0 {
        let m = (n - 1) as nat;
        let w = v.allocate();
        lemma_allocate_grows(v);
        lemma_allocated_ids_are_distinct(w, m);
        lemma_next_ids_become_live(w, m);
        let ids = v.next_ids(n);
        assert forall|i: int, j: int| 0 <= i < ids.len() && 0 <= j < ids.len() && i != j implies ids[i]
            != ids[j] by {
            if i > 0 {
                assert(ids[i] == w.next_ids(m)[i - 1]);
            }
            if j > 0 {
                assert(ids[j] == w.next_ids(m)[j - 1]);
            }
        }
    }
}

/// Where the registry has room before each of `n` calls, it holds `n`
/// identifiers more after them.
pub proof fn lemma_room_at_each_call_bounds_the_calls(v: RegistryView, n: nat)
    requires
        forall|i: nat| i < n ==> (#[trigger] v.allocate_many(i)).has_room(),
    ensures
        n > 0 ==> v.live.finite() && v.live.len() + n <= usize::MAX + 1,
    decreases n,
{
    if n > 0 {
        assert(v.allocate_many(0) == v);
        let m = (n - 1) as nat;
        let w = v.allocate();
        lemma_allocate_grows(v);
        assert forall|i: nat| i < m implies (#[trigger] w.allocate_many(i)).has_room() by {
            assert(v.allocate_many(i + 1) == w.allocate_many(i));
            assert(v.allocate_many(i + 1).has_room());
        }
        lemma_room_at_each_call_bounds_the_calls(w, m);
    }
}

/// Any number of calls on one registry, made one after the other in
/// whatever order their callers came, return pairwise distinct
/// identifiers, none of which was in use before the first call.
///
/// All that is asked is what holds of every registry in memory before a
/// call: that it has room, as a set of `usize` with at most `usize::MAX`
/// members has.
pub proof fn lemma_ids_of_successive_calls_are_distinct(v: RegistryView, n: nat)
    requires
        forall|i: nat| i < n ==> (#[trigger] v.allocate_many(i)).has_room(),
    ensures
        v.next_ids(n).len() == n,
        v.next_ids(n).no_duplicates(),
        forall|i: int| 0 <= i < n ==> !v.live.contains(#[trigger] v.next_ids(n)[i]),
{
    if n > 0 {
        lemma_room_at_each_call_bounds_the_calls(v, n);
        lemma_allocated_ids_are_distinct(v, n);
        lemma_next_ids_become_live(v, n);
    }
}

/// The identifiers in use, and the counter from which the next one is sought.
pub struct IdRegistry {
    counter: usize,
    live: HashSet<usize>,
}

impl View for IdRegistry {
    type V = RegistryView;

    closed spec fn view(&self) -> RegistryView {
        RegistryView { counter: self.counter, live: self.live@ }
    }
}

impl IdRegistry {
    /// The identifiers in use are finitely many.
    pub open spec fn wf(&self) -> bool {
        self@.live.finite()
    }

    /// A registry that has handed out nothing yet.
    pub fn new() -> (ids: IdRegistry)
        ensures
            ids.wf(),
            ids@ == RegistryView::empty(),
    {
        IdRegistry { counter: 0, live: HashSet::new() }
    }

    /// A registry that has handed out nothing yet and seeks its first
    /// identifier from `counter` upwards.
    pub fn starting_at(counter: usize) -> (ids: IdRegistry)
        ensures
            ids.wf(),
            ids@ == (RegistryView { counter, live: Set::empty() }),
    {
        IdRegistry { counter, live: HashSet::new() }
    }

    /// Whether `id` is in use.
    pub fn is_live(&self, id: usize) -> (live: bool)
        ensures
            live == self@.live.contains(id),
    {
        self.live.contains(&id)
    }
}

/// Allocates an identifier that is distinct from every identifier in use,
/// and marks it as in use.
///
/// The search starts at the counter and passes over every candidate that
/// is still in use, going on from zero after the largest identifier, so
/// the result stays unique after the counter has wrapped around.
pub fn next_id(ids: &mut IdRegistry) -> (id: usize)
    requires
        old(ids).wf(),
    ensures
        final(ids).wf(),
        old(ids)@.has_room(),
        !old(ids)@.live.contains(id),
        id == old(ids)@.next_id(),
        final(ids)@ == old(ids)@.allocate(),
{
    let in_use = ids.live.len();
    let mut id = ids.counter;
    let ghost k: int = 0;
    while ids.live.contains(&id)
        invariant
            ids.live@ == old(ids)@.live,
            ids.live@.finite(),
            ids.live@.len() == in_use,
            0 <= k <= in_use,
            id == candidate(old(ids)@.counter, k),
            forall|j: int| 0 <= j < k ==> ids.live@.contains(#[trigger] candidate(old(ids)@.counter, j)),
        decreases in_use - k,
    {
        proof {
            lemma_used_candidates_are_counted(ids.live@, old(ids)@.counter, k + 1);
            lemma_candidate_shift(old(ids)@.counter, k);
            k = k + 1;
        }
        id = id.wrapping_add(1);
    }
    proof {
        lemma_skips_is_unique(old(ids)@, k);
    }
    ids.counter = id.wrapping_add(1);
    ids.live.insert(id);
    id
}

} // verus!
