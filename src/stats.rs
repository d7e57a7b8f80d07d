use vstd::prelude::*;

verus! {

/// Sum of a sequence of per-shard server counts.
pub open spec fn sum_counts(s: Seq<usize>) -> nat
    decreases s.len(),
{
    if s.len() == 0 {
        0
    } else {
        sum_counts(s.drop_last()) + s.last() as nat
    }
}

/// The statistics snapshot that is reported to the remote service.
#[derive(Clone, Copy, Debug, PartialEq, Eq, Structural)]
pub struct Stats {
    pub server_count: Option<usize>,
}

impl Stats {
    /// A snapshot holding `server_count`; the shard count is not reported.
    pub fn from_count(server_count: usize, _shard_count: Option<usize>) -> (r: Stats)
        ensures
            r.server_count == Some(server_count),
    {
        Stats { server_count: Some(server_count) }
    }

    /// A snapshot whose server count is the total over the given shards.
    pub fn from_shards(shards: Vec<usize>, _shard_index: Option<usize>) -> (r: Stats)
        requires
            sum_counts(shards@) <= usize::MAX,
        ensures
            r.server_count == Some(sum_counts(shards@) as usize),
    {
        let mut total: usize = 0;
        let mut i: usize = 0;
        while i < shards.len()
            invariant
                i <= shards@.len(),
                sum_counts(shards@) <= usize::MAX,
                total as nat == sum_counts(shards@.subrange(0, i as int)),
            decreases shards@.len() - i,
        {
            proof {
                lemma_sum_counts_prefix_le(shards@, i as int + 1);
                assert(shards@.subrange(0, i as int + 1).drop_last() =~= shards@.subrange(0, i as int));
            }
            total = total + shards[i];
            i = i + 1;
        }
        assert(shards@.subrange(0, i as int) =~= shards@);
        Stats { server_count: Some(total) }
    }

    /// The server count of this snapshot, if one is set.
    pub fn server_count(&self) -> (r: Option<usize>)
        ensures
            r == self.server_count,
    {
        self.server_count
    }

    /// Per-shard counts are no longer reported: always empty.
    pub fn shards(&self) -> (r: Vec<usize>)
        ensures
            r@.len() == 0,
    {
        Vec::new()
    }

    /// The shard count is no longer reported: always zero.
    pub fn shard_count(&self) -> (r: usize)
        ensures
            r == 0,
    {
        0
    }
}

/// A prefix of a sequence of counts never sums to more than the whole.
proof fn lemma_sum_counts_prefix_le(s: Seq<usize>, k: int)
    requires
        0 <= k <= s.len(),
    ensures
        sum_counts(s.subrange(0, k)) <= sum_counts(s),
    decreases s.len() - k,
{
    if k < s.len() {
        lemma_sum_counts_prefix_le(s, k + 1);
        assert(s.subrange(0, k + 1).drop_last() =~= s.subrange(0, k));
    } else {
        assert(s.subrange(0, k) =~= s);
    }
}

impl From<usize> for Stats {
    fn from(server_count: usize) -> (r: Stats) {
        Stats::from_count(server_count, None)
    }
}

impl vstd::std_specs::convert::FromSpecImpl<usize> for Stats {
    open spec fn obeys_from_spec() -> bool {
        true
    }

    open spec fn from_spec(server_count: usize) -> Stats {
        Stats { server_count: Some(server_count) }
    }
}

} // verus!
