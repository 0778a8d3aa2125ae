//! Choosing the session that hosts a newly joined channel.

use vstd::prelude::*;

verus! {

/// Some session may still take a join: its joined-channel count is at most `threshold`.
pub open spec fn has_eligible(counts: Seq<usize>, threshold: u32) -> bool {
    exists|j: int| 0 <= j < counts.len() && #[trigger] counts[j] <= threshold
}

/// Index `i` is the session a join goes to: it is eligible, no eligible session has
/// fewer channels, and every eligible session before it has more.
pub open spec fn is_placement(counts: Seq<usize>, threshold: u32, i: int) -> bool {
    &&& 0 <= i < counts.len()
    &&& counts[i] <= threshold
    &&& forall|j: int| 0 <= j < counts.len() && #[trigger] counts[j] <= threshold ==> counts[i] <= counts[j]
    &&& forall|j: int| 0 <= j < i && #[trigger] counts[j] <= threshold ==> counts[i] < counts[j]
}

/// The session a join is placed on, or `None` when every session is over the threshold.
pub open spec fn placement(counts: Seq<usize>, threshold: u32) -> Option<int> {
    if has_eligible(counts, threshold) {
        Some(choose|i: int| is_placement(counts, threshold, i))
    } else {
        None
    }
}

/// At most one index is the placement for given counts and threshold, so the choice
/// is the same on every evaluation over the same counts in the same order.
pub proof fn lemma_placement_unique(counts: Seq<usize>, threshold: u32, i: int, k: int)
    requires
        is_placement(counts, threshold, i),
        is_placement(counts, threshold, k),
    ensures
        i == k,
{
    if i < k {
        assert(counts[i] <= threshold);
    } else if k < i {
        assert(counts[k] <= threshold);
    }
}

/// Pick the session for a join: among the sessions whose joined-channel count is at
/// most `threshold`, the one with the fewest channels, the first of equals.
pub fn choose_session(counts: &Vec<usize>, threshold: u32) -> (r: Option<usize>)
    ensures
        match r {
            Some(i) => placement(counts@, threshold) == Some(i as int),
            None => placement(counts@, threshold) is None,
        },
{
    let mut best: Option<usize> = None;
    let mut i: usize = 0;
    while i < counts.len()
        invariant
            i <= counts.len(),
            match best {
                Some(b) => {
                    &&& b < i
                    &&& counts@[b as int] <= threshold
                    &&& forall|j: int| 0 <= j < i && #[trigger] counts@[j] <= threshold ==> counts@[b as int] <= counts@[j]
                    &&& forall|j: int| 0 <= j < b && #[trigger] counts@[j] <= threshold ==> counts@[b as int] < counts@[j]
                },
                None => forall|j: int| 0 <= j < i ==> #[trigger] counts@[j] > threshold,
            },
        decreases counts.len() - i,
    {
        let c = counts[i];
        if c <= threshold as usize {
            match best {
                Some(b) => {
                    if c < counts[b] {
                        best = Some(i);
                    }
                },
                None => {
                    best = Some(i);
                },
            }
        }
        i = i + 1;
    }
    match best {
        Some(b) => {
            assert(is_placement(counts@, threshold, b as int));
            assert(has_eligible(counts@, threshold)) by {
                assert(counts@[b as int] <= threshold);
            }
            let ghost k = choose|k: int| is_placement(counts@, threshold, k);
            proof {
                lemma_placement_unique(counts@, threshold, b as int, k);
            }
        },
        None => {},
    }
    best
}

/// Whenever some session is eligible, a placement exists.
pub proof fn lemma_placement_exists(counts: Seq<usize>, threshold: u32)
    requires
        has_eligible(counts, threshold),
    ensures
        exists|i: int| is_placement(counts, threshold, i),
    decreases counts.len(),
{
    let n = counts.len() as int;
    let s = counts.drop_last();
    let x = counts[n - 1];
    if has_eligible(s, threshold) {
        lemma_placement_exists(s, threshold);
        let i = choose|i: int| is_placement(s, threshold, i);
        assert(forall|j: int| 0 <= j < n - 1 ==> s[j] == #[trigger] counts[j]);
        if x <= threshold && x < counts[i] {
            assert(is_placement(counts, threshold, n - 1));
        } else {
            assert(is_placement(counts, threshold, i));
        }
    } else {
        let j0 = choose|j: int| 0 <= j < counts.len() && #[trigger] counts[j] <= threshold;
        if j0 < n - 1 {
            assert(s[j0] == counts[j0]);
        }
        assert(forall|j: int| 0 <= j < n - 1 ==> s[j] == #[trigger] counts[j]);
        assert(is_placement(counts, threshold, n - 1));
    }
}

/// A join goes to an eligible session with the fewest channels when one exists,
/// and to no existing session otherwise.
pub proof fn lemma_placement_spec(counts: Seq<usize>, threshold: u32)
    ensures
        placement(counts, threshold) is Some <==> has_eligible(counts, threshold),
        placement(counts, threshold) matches Some(i) ==> is_placement(counts, threshold, i),
{
    if has_eligible(counts, threshold) {
        lemma_placement_exists(counts, threshold);
    }
}

/// Of two eligible sessions that both hold the least joined-channel count, the later
/// one never takes the join: the chosen session comes no later than the first of
/// the two, so order alone breaks the tie.
pub proof fn lemma_tie_goes_to_first(counts: Seq<usize>, threshold: u32, i: int, j: int)
    requires
        0 <= i < j < counts.len(),
        counts[i] <= threshold,
        counts[i] == counts[j],
        forall|k: int| 0 <= k < counts.len() && #[trigger] counts[k] <= threshold ==> counts[i] <= counts[k],
    ensures
        placement(counts, threshold) matches Some(k) && k <= i && counts[k] == counts[i],
{
    assert(has_eligible(counts, threshold));
    lemma_placement_spec(counts, threshold);
    let k = placement(counts, threshold)->0;
    if k > i {
        assert(counts[i] <= threshold);
    }
}

} // verus!
