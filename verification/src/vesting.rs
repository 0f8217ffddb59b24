//! Vesting math: how much of a stream's deposit has vested at a given time.
use crate::types::Stream;
use vstd::prelude::*;

verus! {

impl Stream {
    /// The time that counts for vesting: `now`, or the moment of cancellation
    /// once the stream has been canceled.
    pub open spec fn clock(self, now: u64) -> u64 {
        if self.canceled {
            self.cancel_time
        } else {
            now
        }
    }

    /// The amount vested at `now`: nothing up to `start_time`, everything from
    /// `end_time` on, and in between the elapsed share of the deposit, rounded
    /// down.
    pub open spec fn vested(self, now: u64) -> int {
        let time = self.clock(now);
        if time <= self.start_time {
            0
        } else if time >= self.end_time {
            self.deposit as int
        } else {
            self.deposit * (time - self.start_time) / (self.end_time - self.start_time)
        }
    }

    /// The amount vested at `now` and not yet withdrawn.
    pub open spec fn available(self, now: u64) -> int {
        self.vested(now) - self.withdrawn
    }

    /// What holds of every stream that the contract stores.
    pub open spec fn wf(self) -> bool {
        &&& 0 < self.deposit
        &&& self.start_time < self.end_time
        &&& 0 <= self.withdrawn <= self.deposit
        &&& self.canceled ==> self.withdrawn == self.vested(self.cancel_time)
        &&& !self.canceled ==> self.cancel_time == 0
    }
}

/// The vested amount lies between nothing and the whole deposit.
pub proof fn law_vested_within_deposit(stream: Stream, now: u64)
    requires
        0 <= stream.deposit,
    ensures
        0 <= stream.vested(now) <= stream.deposit,
{
    let time = stream.clock(now);
    if stream.start_time < time < stream.end_time {
        let deposit = stream.deposit as int;
        let elapsed = time - stream.start_time;
        let total = stream.end_time - stream.start_time;
        assert(0 <= deposit * elapsed / total <= deposit) by (nonlinear_arith)
            requires
                0 <= deposit,
                0 < elapsed < total,
        ;
    }
}

/// Nothing has vested up to the start of the window, and everything from its
/// end on.
pub proof fn law_vesting_starts_and_ends(stream: Stream, now: u64)
    requires
        stream.start_time < stream.end_time,
    ensures
        stream.clock(now) <= stream.start_time ==> stream.vested(now) == 0,
        stream.clock(now) >= stream.end_time ==> stream.vested(now) == stream.deposit,
{
}

/// Inside the window the vested amount is the elapsed share of the deposit
/// rounded down: never more than that share, and short of it by less than one
/// unit.
pub proof fn law_vesting_rounds_down(stream: Stream, now: u64)
    requires
        0 <= stream.deposit,
        stream.start_time < stream.end_time,
        stream.start_time <= stream.clock(now) <= stream.end_time,
    ensures
        ({
            let elapsed = stream.clock(now) - stream.start_time;
            let total = stream.end_time - stream.start_time;
            stream.vested(now) * total <= stream.deposit * elapsed < (stream.vested(now) + 1)
                * total
        }),
{
    let deposit = stream.deposit as int;
    let elapsed = stream.clock(now) - stream.start_time;
    let total = stream.end_time - stream.start_time;
    if elapsed == 0 {
        assert(deposit * 0 == 0) by (nonlinear_arith);
    } else if elapsed == total {
        assert(deposit * total < (deposit + 1) * total) by (nonlinear_arith)
            requires
                0 < total,
        ;
    } else {
        let vested = deposit * elapsed / total;
        assert(vested * total <= deposit * elapsed < (vested + 1) * total) by (nonlinear_arith)
            requires
                0 < total,
                vested == deposit * elapsed / total,
        ;
    }
}

/// As time goes on, the vested amount never falls.
pub proof fn law_vesting_never_falls(stream: Stream, earlier: u64, later: u64)
    requires
        0 <= stream.deposit,
        earlier <= later,
    ensures
        stream.vested(earlier) <= stream.vested(later),
{
    law_vested_within_deposit(stream, earlier);
    law_vested_within_deposit(stream, later);
    let before = stream.clock(earlier);
    let after = stream.clock(later);
    if stream.start_time < before && after < stream.end_time {
        let deposit = stream.deposit as int;
        let total = stream.end_time - stream.start_time;
        let x = before - stream.start_time;
        let y = after - stream.start_time;
        assert(deposit * x / total <= deposit * y / total) by {
            assert(deposit * x <= deposit * y) by (nonlinear_arith)
                requires
                    0 <= deposit,
                    x <= y,
            ;
            vstd::arithmetic::div_mod::lemma_div_is_ordered(deposit * x, deposit * y, total);
        }
    }
}

/// Once a stream is canceled its vesting is frozen: at any two times the same
/// amount has vested, and all of it has been paid out.
pub proof fn law_cancellation_freezes_vesting(stream: Stream, now: u64, later: u64)
    requires
        stream.wf(),
        stream.canceled,
    ensures
        stream.vested(now) == stream.vested(later),
        stream.available(now) == 0,
{
}

/// `deposit * elapsed / total`, rounded down, without forming the product: the
/// quotient and the remainder of `deposit` by `total` are scaled one by one.
fn elapsed_share(deposit: u128, elapsed: u64, total: u64) -> (share: u128)
    requires
        0 < elapsed < total,
    ensures
        share == deposit * elapsed / (total as int),
        share <= deposit,
{
    let whole: u128 = deposit / (total as u128);
    let rest: u128 = deposit % (total as u128);
    proof {
        let d = deposit as int;
        let e = elapsed as int;
        let t = total as int;
        let q = whole as int;
        let r = rest as int;
        vstd::arithmetic::div_mod::lemma_fundamental_div_mod(d, t);
        assert(d * e == r * e + (q * e) * t) by (nonlinear_arith)
            requires
                d == t * q + r,
        ;
        vstd::arithmetic::div_mod::lemma_hoist_over_denominator(r * e, q * e, t as nat);
        assert(0 <= r * e < 0x1_0000_0000_0000_0000 * 0x1_0000_0000_0000_0000) by (nonlinear_arith)
            requires
                0 <= r < 0x1_0000_0000_0000_0000,
                0 <= e < 0x1_0000_0000_0000_0000,
        ;
        assert(0 <= q * e) by (nonlinear_arith)
            requires
                0 <= q,
                0 <= e,
        ;
        assert(d * e / t <= d) by (nonlinear_arith)
            requires
                0 <= d,
                0 < e < t,
        ;
        assert(0 <= r * e / t) by (nonlinear_arith)
            requires
                0 <= r * e,
                0 < t,
        ;
    }
    whole * (elapsed as u128) + rest * (elapsed as u128) / (total as u128)
}

/// Pure vesting math, shared by `withdrawable`, `withdraw`, and `cancel`.
/// Linear interpolation between `start_time` and `end_time`, clamped to
/// `[0, deposit]`. If the stream has been canceled, `now` is effectively
/// capped at `cancel_time` so vesting stops accruing from that point on.
pub fn vested_amount(stream: &Stream, now: u64) -> (vested: i128)
    requires
        0 <= stream.deposit,
    ensures
        vested == stream.vested(now),
        ({
            let time = if stream.canceled {
                stream.cancel_time
            } else {
                now
            };
            &&& time <= stream.start_time ==> vested == 0
            &&& stream.start_time < time && stream.end_time <= time ==> vested == stream.deposit
            &&& stream.start_time < time < stream.end_time ==> vested * (stream.end_time
                - stream.start_time) <= stream.deposit * (time - stream.start_time) < (vested + 1)
                * (stream.end_time - stream.start_time)
        }),
{
    proof {
        crate::meaning::law_vesting_is_linear_in_time(*stream, now);
    }
    let effective_now: u64 = if stream.canceled {
        stream.cancel_time
    } else {
        now
    };

    if effective_now <= stream.start_time {
        return 0;
    }
    if effective_now >= stream.end_time {
        return stream.deposit;
    }
    let elapsed: u64 = effective_now - stream.start_time;
    let total: u64 = stream.end_time - stream.start_time;
    // Integer division rounds down: the recipient never receives more than
    // has strictly vested, and any dust from rounding stays escrowed until
    // it either vests fully or is refunded to the sender on cancellation.
    elapsed_share(stream.deposit as u128, elapsed, total) as i128
}

impl Stream {
    /// Whether this is a stream that the contract could have stored.
    pub fn is_well_formed(&self) -> (well_formed: bool)
        ensures
            well_formed == self.wf(),
            well_formed <==> {
                &&& 0 < self.deposit
                &&& self.start_time < self.end_time
                &&& 0 <= self.withdrawn <= self.deposit
                &&& !self.canceled ==> self.cancel_time == 0
                &&& self.canceled && self.cancel_time <= self.start_time ==> self.withdrawn == 0
                &&& self.canceled && self.end_time <= self.cancel_time ==> self.withdrawn
                    == self.deposit
                &&& self.canceled && self.start_time < self.cancel_time < self.end_time ==> {
                    &&& self.withdrawn * (self.end_time - self.start_time) <= self.deposit * (
                    self.cancel_time - self.start_time)
                    &&& self.deposit * (self.cancel_time - self.start_time) < (self.withdrawn + 1)
                        * (self.end_time - self.start_time)
                }
            },
    {
        proof {
            crate::meaning::law_well_formedness(*self);
        }
        if self.deposit <= 0 || self.start_time >= self.end_time || self.withdrawn < 0
            || self.withdrawn > self.deposit {
            return false;
        }
        if self.canceled {
            self.withdrawn == vested_amount(self, self.cancel_time)
        } else {
            self.cancel_time == 0
        }
    }
}

} // verus!
