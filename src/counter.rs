use vstd::prelude::*;

verus! {

/// The value a request counter moves to after one fetch-and-increment.
/// Like an atomic `fetch_add(1)`, it wraps around at the top of `usize`.
pub open spec fn next_count(v: usize) -> usize {
    if v == usize::MAX {
        0
    } else {
        (v + 1) as usize
    }
}

/// The counter's value after `n` increments, starting from `start`.
pub open spec fn count_after(start: usize, n: nat) -> usize
    decreases n,
{
    if n == 0 {
        start
    } else {
        next_count(count_after(start, (n - 1) as nat))
    }
}

/// The values that `n` successive increments hand out, in order,
/// from a counter that starts at `start`.
pub open spec fn handed_out(start: usize, n: nat) -> Seq<usize> {
    Seq::new(n, |i: int| count_after(start, i as nat))
}

/// Without wrapping, `n` increments add exactly `n`.
pub proof fn lemma_count_after_adds(start: usize, n: nat)
    requires
        start + n <= usize::MAX,
    ensures
        count_after(start, n) == start + n,
    decreases n,
{
    if n > 0 {
        lemma_count_after_adds(start, (n - 1) as nat);
    }
}

/// Whatever mix of requests is served, a later one observes a strictly larger
/// count than an earlier one, as long as the counter has not wrapped.
pub proof fn lemma_counts_increase(start: usize, i: nat, j: nat)
    requires
        i < j,
        start + j <= usize::MAX,
    ensures
        count_after(start, i) < count_after(start, j),
        count_after(start, j) - count_after(start, i) == j - i,
{
    lemma_count_after_adds(start, i);
    lemma_count_after_adds(start, j);
}

/// From a fresh counter, `n` requests take the values `0, 1, ..., n - 1`:
/// the i-th takes `i`, no value is taken twice and none is skipped.
pub proof fn lemma_fresh_counter_hands_out_each_value_once(n: nat)
    requires
        n <= usize::MAX + 1,
    ensures
        forall|i: int| 0 <= i < n ==> #[trigger] handed_out(0, n)[i] == i,
        handed_out(0, n).no_duplicates(),
        handed_out(0, n).to_set() == Set::new(|v: usize| v < n),
{
    let s = handed_out(0, n);
    assert forall|i: int| 0 <= i < n implies #[trigger] s[i] == i by {
        lemma_count_after_adds(0, i as nat);
    }
    assert(s.no_duplicates());
    assert forall|v: usize| v < n implies #[trigger] s.to_set().contains(v) by {
        assert(s[v as int] == v);
    }
    assert(s.to_set() =~= Set::new(|v: usize| v < n));
}

/// Counts the requests served. Every handled request takes one value from it.
pub struct RequestCounter {
    value: usize,
}

impl RequestCounter {
    /// The count of requests handled so far.
    pub closed spec fn view(&self) -> usize {
        self.value
    }

    /// A counter that has handled no request.
    pub fn new() -> (r: RequestCounter)
        ensures
            r@ == 0,
    {
        RequestCounter { value: 0 }
    }

    /// The current count, without advancing it.
    pub fn value(&self) -> (r: usize)
        ensures
            r == self@,
    {
        self.value
    }

    /// Advances the counter by one and returns the value it held before.
    pub fn increment_and_get(&mut self) -> (r: usize)
        ensures
            r == old(self)@,
            final(self)@ == next_count(old(self)@),
    {
        let r = self.value;
        self.value = self.value.wrapping_add(1);
        r
    }
}

} // verus!
