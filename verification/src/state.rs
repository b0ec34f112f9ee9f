use vstd::arithmetic::div_mod::{
    lemma_div_is_ordered, lemma_div_multiples_vanish, lemma_div_nonincreasing,
    lemma_div_pos_is_pos, lemma_multiply_divide_lt,
};
use vstd::arithmetic::mul::{lemma_mul_inequality, lemma_mul_upper_bound};
use vstd::prelude::*;

verus! {

/// Persistent application state attached to one ledger output that
/// represents a vesting stream.
pub struct StreamState {
    /// Total quantity ever claimable; fixed for the life of the stream.
    pub total_amount: u64,
    /// Cumulative quantity already paid out; never decreases.
    pub claimed_amount: u64,
    /// Unix-epoch seconds at which vesting begins.
    pub start_time: u64,
    /// Unix-epoch seconds at which vesting completes; must exceed `start_time`.
    pub end_time: u64,
    /// Opaque payout-destination descriptor; pinned at creation, non-empty.
    pub beneficiary_dest: Vec<u8>,
}

/// Mathematical image of a [`StreamState`].
pub struct StreamStateView {
    pub total_amount: u64,
    pub claimed_amount: u64,
    pub start_time: u64,
    pub end_time: u64,
    pub beneficiary_dest: Seq<u8>,
}

impl View for StreamState {
    type V = StreamStateView;

    open spec fn view(&self) -> StreamStateView {
        StreamStateView {
            total_amount: self.total_amount,
            claimed_amount: self.claimed_amount,
            start_time: self.start_time,
            end_time: self.end_time,
            beneficiary_dest: self.beneficiary_dest@,
        }
    }
}

fn clone_bytes(v: &Vec<u8>) -> (r: Vec<u8>)
    ensures
        r@ == v@,
{
    let mut r: Vec<u8> = Vec::new();
    let mut i: usize = 0;
    while i < v.len()
        invariant
            i <= v.len(),
            r@ =~= v@.take(i as int),
        decreases v.len() - i,
    {
        r.push(v[i]);
        i += 1;
    }
    proof {
        assert(r@ =~= v@);
    }
    r
}

impl Clone for StreamState {
    /// A clone carries exactly the same stream state.
    fn clone(&self) -> (r: Self)
        ensures
            r@ == self@,
    {
        StreamState {
            total_amount: self.total_amount,
            claimed_amount: self.claimed_amount,
            start_time: self.start_time,
            end_time: self.end_time,
            beneficiary_dest: clone_bytes(&self.beneficiary_dest),
        }
    }
}

/// The product `total * elapsed`, saturated at `u64::MAX`: the vesting
/// formula never lets an oversized intermediate product wrap.
pub open spec fn capped_product(total: u64, elapsed: int) -> int {
    if total * elapsed > u64::MAX {
        u64::MAX as int
    } else {
        total * elapsed
    }
}

/// The amount vested at time `now`: zero at or before `start_time`, the full
/// `total_amount` at or after `end_time`, and in between the floor of
/// `total_amount * (now - start_time) / (end_time - start_time)` with the
/// product saturated at `u64::MAX`.
pub open spec fn vested_amount(s: StreamStateView, now: u64) -> int {
    if now <= s.start_time {
        0
    } else if now >= s.end_time {
        s.total_amount as int
    } else {
        capped_product(s.total_amount, now - s.start_time) / (s.end_time - s.start_time)
    }
}

impl StreamState {
    /// The amount vested at `now`, exactly [`vested_amount`] of this state.
    pub fn vested_at(&self, now: u64) -> (r: u64)
        ensures
            r == vested_amount(self@, now),
    {
        if now <= self.start_time {
            0
        } else if now >= self.end_time {
            self.total_amount
        } else {
            let elapsed: u64 = now - self.start_time;
            let duration: u64 = self.end_time - self.start_time;
            proof {
                lemma_mul_upper_bound(
                    self.total_amount as int,
                    u64::MAX as int,
                    elapsed as int,
                    u64::MAX as int,
                );
            }
            let wide: u128 = (self.total_amount as u128) * (elapsed as u128);
            let capped: u128 = if wide > (u64::MAX as u128) {
                u64::MAX as u128
            } else {
                wide
            };
            let q: u128 = capped / (duration as u128);
            proof {
                assert(capped == capped_product(self.total_amount, elapsed as int));
                lemma_div_nonincreasing(capped as int, duration as int);
            }
            q as u64
        }
    }
}

/// The vested amount always lies between zero and the stream's total.
pub proof fn lemma_vested_bounds(s: StreamStateView, now: u64)
    requires
        s.start_time < s.end_time,
    ensures
        0 <= vested_amount(s, now) <= s.total_amount,
{
    if s.start_time < now < s.end_time {
        let e = now - s.start_time;
        let d = s.end_time - s.start_time;
        let p = capped_product(s.total_amount, e);
        lemma_div_pos_is_pos(p, d);
        lemma_mul_inequality(e, d, s.total_amount as int);
        if s.total_amount * e > u64::MAX {
            lemma_multiply_divide_lt(p, d, s.total_amount as int);
        } else {
            lemma_div_is_ordered(p, s.total_amount * d, d);
            lemma_div_multiples_vanish(s.total_amount as int, d);
        }
    }
}

/// Vesting monotonicity: for a fixed stream the vested amount never
/// decreases as time advances; nothing is vested at or before `start_time`,
/// and the full total is vested at or after `end_time`.
pub proof fn lemma_vesting_monotonic(s: StreamStateView, t1: u64, t2: u64)
    requires
        s.start_time < s.end_time,
        t1 <= t2,
    ensures
        vested_amount(s, t1) <= vested_amount(s, t2),
        vested_amount(s, s.start_time) == 0,
        vested_amount(s, s.end_time) == s.total_amount,
{
    lemma_vested_bounds(s, t1);
    lemma_vested_bounds(s, t2);
    if s.start_time < t1 && t2 < s.end_time {
        let d = s.end_time - s.start_time;
        let e1 = t1 - s.start_time;
        let e2 = t2 - s.start_time;
        lemma_mul_inequality(e1, e2, s.total_amount as int);
        lemma_div_is_ordered(
            capped_product(s.total_amount, e1),
            capped_product(s.total_amount, e2),
            d,
        );
    }
}

} // verus!
