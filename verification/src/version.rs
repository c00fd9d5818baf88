use vstd::prelude::*;

verus! {

/// The version token summarizing a set of observed modification times: their
/// maximum, or `0` when nothing was readable.
pub open spec fn spec_latest_timestamp(ts: Seq<u64>) -> u64
    decreases ts.len(),
{
    if ts.len() == 0 {
        0u64
    } else if ts.last() > spec_latest_timestamp(ts.drop_last()) {
        ts.last()
    } else {
        spec_latest_timestamp(ts.drop_last())
    }
}

/// Reduces the modification times observed across the document tree to one
/// version token.
pub fn latest_docs_timestamp(times: &Vec<u64>) -> (r: u64)
    ensures
        r == spec_latest_timestamp(times@),
{
    let mut latest: u64 = 0;
    let mut i: usize = 0;
    proof {
        assert(times@.take(0) =~= Seq::<u64>::empty());
    }
    while i < times.len()
        invariant
            i <= times@.len(),
            latest == spec_latest_timestamp(times@.take(i as int)),
        decreases times@.len() - i,
    {
        let t = times[i];
        proof {
            assert(times@.take(i + 1).drop_last() =~= times@.take(i as int));
            assert(times@.take(i + 1).last() == times@[i as int]);
        }
        if t > latest {
            latest = t;
        }
        i = i + 1;
    }
    proof {
        assert(times@.take(times@.len() as int) =~= times@);
    }
    latest
}

/// Every observed time is bounded by the token.
pub proof fn lemma_latest_timestamp_bound(ts: Seq<u64>)
    ensures
        forall|i: int| 0 <= i < ts.len() ==> ts[i] <= spec_latest_timestamp(ts),
    decreases ts.len(),
{
    if ts.len() > 0 {
        lemma_latest_timestamp_bound(ts.drop_last());
        assert forall|i: int| 0 <= i < ts.len() implies ts[i] <= spec_latest_timestamp(ts) by {
            if i < ts.len() - 1 {
                assert(ts.drop_last()[i] == ts[i]);
            }
        }
    }
}

/// Law: the token never decreases while no observed modification time does —
/// in particular, repeated scans of an unchanged tree yield the same token.
pub proof fn lemma_version_token_monotone(t1: Seq<u64>, t2: Seq<u64>)
    requires
        t1.len() == t2.len(),
        forall|i: int| 0 <= i < t1.len() ==> t1[i] <= t2[i],
    ensures
        spec_latest_timestamp(t1) <= spec_latest_timestamp(t2),
    decreases t1.len(),
{
    if t1.len() > 0 {
        assert forall|i: int| 0 <= i < t1.drop_last().len() implies t1.drop_last()[i]
            <= t2.drop_last()[i] by {
            assert(t1.drop_last()[i] == t1[i]);
            assert(t2.drop_last()[i] == t2[i]);
        }
        lemma_version_token_monotone(t1.drop_last(), t2.drop_last());
        assert(t1.last() <= t2.last());
    }
}

/// Law: when one entry's modification time rises above the old token, the
/// token strictly increases, to exactly that time.
pub proof fn lemma_version_token_increases(ts: Seq<u64>, i: int, v: u64)
    requires
        0 <= i < ts.len(),
        v > spec_latest_timestamp(ts),
    ensures
        spec_latest_timestamp(ts.update(i, v)) == v,
        spec_latest_timestamp(ts.update(i, v)) > spec_latest_timestamp(ts),
    decreases ts.len(),
{
    let upd = ts.update(i, v);
    lemma_latest_timestamp_bound(upd);
    if i == ts.len() - 1 {
        assert(upd.drop_last() =~= ts.drop_last());
        assert(upd.last() == v);
        assert(spec_latest_timestamp(ts.drop_last()) <= spec_latest_timestamp(ts));
    } else {
        assert(upd.drop_last() =~= ts.drop_last().update(i, v));
        assert(spec_latest_timestamp(ts.drop_last()) <= spec_latest_timestamp(ts));
        lemma_version_token_increases(ts.drop_last(), i, v);
        assert(upd.last() == ts.last());
        assert(ts.last() <= spec_latest_timestamp(ts));
    }
}

/// Milliseconds since the epoch for a duration of `secs` seconds plus
/// `nanos` nanoseconds, truncated to 64 bits.
pub fn system_time_to_millis(secs: u64, nanos: u32) -> (r: u64)
    ensures
        r == (secs * 1000 + nanos / 1000000) % 0x10000000000000000,
{
    let wide: u128 = (secs as u128) * 1000 + ((nanos / 1000000) as u128);
    let r = #[verifier::truncate] (wide as u64);
    proof {
        assert(wide == secs * 1000 + nanos / 1000000);
        let w = wide;
        assert(w as u64 == w % 0x10000000000000000) by (bit_vector);
    }
    r
}

/// The one piece of shared mutable state: the version token a poll last saw.
pub struct PreviewVersionState {
    pub last_observed_version: u64,
}

impl PreviewVersionState {
    /// Starts tracking from an initial token.
    pub fn new(initial: u64) -> (r: PreviewVersionState)
        ensures
            r.last_observed_version == initial,
    {
        PreviewVersionState { last_observed_version: initial }
    }

    /// Swaps a freshly computed token in and reports whether it differs from
    /// the one observed before (the cue for the change log line).
    pub fn observe(&mut self, current: u64) -> (changed: bool)
        ensures
            final (self).last_observed_version == current,
            changed == (old(self).last_observed_version != current),
    {
        let changed = self.last_observed_version != current;
        self.last_observed_version = current;
        changed
    }
}

} // verus!
