//! Conversion between native and internal gas units, and the internal counter.

use vstd::prelude::*;
use crate::error::Error;
use crate::schedule::ResourceSchedule;
use crate::uint::{Uint256, word_base, word256_bound};

verus! {

/// Internal units for a native budget: `g * mul / div`, rounded down.
pub open spec fn internal_gas(g: nat, s: ResourceSchedule) -> nat {
    (g * s.opcodes_mul as nat) / (s.opcodes_div as nat)
}

/// Native units for an internal amount: `x * div / mul`, rounded down.
pub open spec fn native_gas(x: nat, s: ResourceSchedule) -> nat {
    (x * s.opcodes_div as nat) / (s.opcodes_mul as nat)
}

/// Sum of a sequence of charges.
pub open spec fn total(costs: Seq<u64>) -> nat
    decreases costs.len(),
{
    if costs.len() == 0 {
        0
    } else {
        total(costs.drop_last()) + costs.last() as nat
    }
}

proof fn lemma_div_lower(x: int, d: int, k: int)
    requires
        d > 0,
        x >= k * d,
    ensures
        x / d >= k,
{
    vstd::arithmetic::div_mod::lemma_fundamental_div_mod(x, d);
    vstd::arithmetic::div_mod::lemma_mod_bound(x, d);
    let q = x / d;
    let r = x % d;
    assert(q >= k) by (nonlinear_arith)
        requires
            x == d * q + r,
            0 <= r < d,
            x >= k * d,
            d > 0,
    ;
}

/// Converts a native budget into internal units; fails exactly when the
/// result does not fit in 64 bits.
pub fn to_internal(gas: &Uint256, schedule: &ResourceSchedule) -> (r: Result<u64, Error>)
    requires
        schedule.wf(),
    ensures
        r.is_ok() <==> internal_gas(gas.value(), *schedule) <= u64::MAX,
        r.is_ok() ==> r.unwrap() == internal_gas(gas.value(), *schedule),
        r.is_err() ==> r == Err::<u64, Error>(Error::GasConversionOverflow),
{
    let m = Uint256::from_u64(schedule.opcodes_mul as u64);
    let d = Uint256::from_u64(schedule.opcodes_div as u64);
    match gas.checked_mul(&m) {
        None => {
            proof {
                let x = gas.value() * m.value();
                let b = word_base();
                let dv = d.value() as int;
                assert(b * dv < b * b * b * b) by (nonlinear_arith)
                    requires
                        0 < dv < b,
                        b == word_base(),
                ;
                lemma_div_lower(x as int, dv, b);
            }
            Err(Error::GasConversionOverflow)
        },
        Some(p) => {
            let q = p.div(&d);
            match q.to_u64() {
                Some(x) => Ok(x),
                None => Err(Error::GasConversionOverflow),
            }
        },
    }
}

/// Converts an internal amount back into native units.
pub fn to_native(left: u64, schedule: &ResourceSchedule) -> (r: Uint256)
    requires
        schedule.wf(),
    ensures
        r.value() == native_gas(left as nat, *schedule),
{
    let x = Uint256::from_u64(left);
    let d = Uint256::from_u64(schedule.opcodes_div as u64);
    let m = Uint256::from_u64(schedule.opcodes_mul as u64);
    proof {
        let b = word_base();
        let xv = left as int;
        let dv = schedule.opcodes_div as int;
        assert(xv * dv < b * b * b * b) by (nonlinear_arith)
            requires
                0 <= xv < b,
                0 < dv < b,
                b == word_base(),
        ;
    }
    match x.checked_mul(&d) {
        Some(p) => p.div(&m),
        None => {
            proof {
                assert(false);
            }
            Uint256::zero()
        },
    }
}

/// Converting a budget in and back out never gains gas, and loses less than
/// one internal unit's worth of native gas plus one native unit:
/// `(g - back) * mul < div + mul`.
pub proof fn lemma_gas_round_trip(g: nat, s: ResourceSchedule)
    requires
        s.wf(),
    ensures
        native_gas(internal_gas(g, s), s) <= g,
        (g - native_gas(internal_gas(g, s), s)) * (s.opcodes_mul as int) < s.opcodes_div as int
            + s.opcodes_mul as int,
{
    let m = s.opcodes_mul as int;
    let d = s.opcodes_div as int;
    let a = internal_gas(g, s) as int;
    let b = native_gas(a as nat, s) as int;
    let gi = g as int;
    vstd::arithmetic::div_mod::lemma_fundamental_div_mod(gi * m, d);
    vstd::arithmetic::div_mod::lemma_mod_bound(gi * m, d);
    vstd::arithmetic::div_mod::lemma_fundamental_div_mod(a * d, m);
    vstd::arithmetic::div_mod::lemma_mod_bound(a * d, m);
    let r1 = (gi * m) % d;
    let r2 = (a * d) % m;
    assert(gi * m == d * a + r1);
    assert(a * d == m * b + r2);
    assert(b <= gi) by (nonlinear_arith)
        requires
            gi * m == d * a + r1,
            a * d == m * b + r2,
            0 <= r1,
            0 <= r2,
            m > 0,
    ;
    assert((gi - b) * m < d + m) by (nonlinear_arith)
        requires
            gi * m == d * a + r1,
            a * d == m * b + r2,
            r1 < d,
            r2 < m,
    ;
}

/// Internal gas charged up front for the initial memory pages; the schedule's
/// rate bound keeps the product within 64 bits.
pub fn initial_memory_charge(pages: u32, schedule: &ResourceSchedule) -> (r: u64)
    requires
        schedule.wf(),
    ensures
        r == pages as nat * schedule.initial_mem as nat,
{
    let p = pages as u64;
    let rate = schedule.initial_mem as u64;
    assert(p * rate <= 0xffff_ffff * 65535) by (nonlinear_arith)
        requires
            p <= 0xffff_ffff,
            rate <= 65535,
    ;
    p * rate
}

/// The internal gas still available; it never goes below zero.
#[derive(Clone, Copy, Debug)]
pub struct GasCounter {
    pub left: u64,
}

impl GasCounter {
    pub fn new(left: u64) -> (r: GasCounter)
        ensures
            r.left == left,
    {
        GasCounter { left }
    }

    /// Takes `cost` from the counter; when it is more than what is left the
    /// counter drops to zero and the call must stop with `OutOfGas`.
    pub fn charge(&mut self, cost: u64) -> (r: Result<(), Error>)
        ensures
            cost <= old(self).left ==> r.is_ok() && final(self).left == old(self).left - cost,
            cost > old(self).left ==> r == Err::<(), Error>(Error::OutOfGas) && final(self).left
                == 0,
    {
        if cost <= self.left {
            self.left = self.left - cost;
            Ok(())
        } else {
            self.left = 0;
            Err(Error::OutOfGas)
        }
    }

    /// Applies the charges in order. If their sum exceeds what is left, the
    /// result is `OutOfGas` with nothing left; otherwise exactly the sum is taken.
    pub fn charge_all(&mut self, costs: &Vec<u64>) -> (r: Result<(), Error>)
        ensures
            total(costs@) <= old(self).left ==> r.is_ok() && final(self).left == old(self).left
                - total(costs@),
            total(costs@) > old(self).left ==> r == Err::<(), Error>(Error::OutOfGas)
                && final(self).left == 0,
    {
        let start: Ghost<u64> = Ghost(self.left);
        let mut i: usize = 0;
        while i < costs.len()
            invariant
                i <= costs@.len(),
                total(costs@.take(i as int)) <= start@,
                self.left == start@ - total(costs@.take(i as int)),
                start@ == old(self).left,
            decreases costs@.len() - i,
        {
            assert(costs@.take(i as int + 1).drop_last() == costs@.take(i as int));
            let c = costs[i];
            if c > self.left {
                self.left = 0;
                proof {
                    lemma_total_prefix(costs@, i as int + 1);
                }
                return Err(Error::OutOfGas);
            }
            self.left = self.left - c;
            i = i + 1;
        }
        assert(costs@.take(i as int) == costs@);
        Ok(())
    }
}

/// A prefix never sums to more than the whole sequence.
pub proof fn lemma_total_prefix(costs: Seq<u64>, k: int)
    requires
        0 <= k <= costs.len(),
    ensures
        total(costs.take(k)) <= total(costs),
    decreases costs.len(),
{
    if k < costs.len() {
        assert(costs.drop_last().take(k) == costs.take(k));
        lemma_total_prefix(costs.drop_last(), k);
    } else {
        assert(costs.take(k) == costs);
    }
}

} // verus!
