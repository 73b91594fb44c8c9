//! Fixed-step simulation clock.
//!
//! Wall-clock time arrives in arbitrary chunks; simulated time only
//! ever advances in whole multiples of one fixed step. The clock
//! accumulates incoming wall-clock deltas and hands out the number of
//! whole steps the accumulated time covers, carrying the remainder
//! forward. How the same total of wall-clock time is chunked makes no
//! difference to the number of steps handed out, which is what keeps
//! the simulation deterministic.

use vstd::prelude::*;
use vstd::arithmetic::div_mod::lemma_fundamental_div_mod;
use vstd::arithmetic::div_mod::lemma_fundamental_div_mod_converse_div;
use vstd::arithmetic::div_mod::lemma_fundamental_div_mod_converse_mod;

use crate::ConfigError;

verus! {

/// Largest accepted fixed step, in microseconds (1000 seconds); keeps
/// every per-tick product inside 64 bits.
pub const MAX_FIXED_STEP: u64 = 1_000_000_000;

/// Default fixed step: two milliseconds of simulated time per tick.
pub const DEFAULT_FIXED_STEP: u64 = 2_000;

/// The fixed-step accumulator. `fixed_step` is chosen at session start
/// and never changes; `accumulator` is the wall-clock remainder not yet
/// consumed, always below one step.
#[derive(Clone, Copy, PartialEq, Eq, Structural, Debug)]
pub struct SimulationClock {
    /// Simulated seconds per tick, in microseconds.
    pub fixed_step: u64,
    /// Wall-clock time carried forward, in microseconds.
    pub accumulator: u64,
}

impl SimulationClock {
    /// The step is positive and bounded, and the carried remainder is
    /// below one step.
    pub open spec fn wf(self) -> bool {
        &&& 0 < self.fixed_step <= MAX_FIXED_STEP
        &&& self.accumulator < self.fixed_step
    }

    /// Build the session clock. A zero step (or one beyond the machine
    /// bound) is a configuration error reported at startup, never a
    /// runtime fault.
    pub fn new(fixed_step: u64) -> (r: Result<SimulationClock, ConfigError>)
        ensures
            (0 < fixed_step <= MAX_FIXED_STEP) <==> r is Ok,
            r is Ok ==> r->Ok_0 == (SimulationClock { fixed_step, accumulator: 0u64 }),
            r is Ok ==> r->Ok_0.wf(),
            r is Err ==> r->Err_0 == ConfigError::InvalidFixedStep,
    {
        if fixed_step == 0 || fixed_step > MAX_FIXED_STEP {
            Err(ConfigError::InvalidFixedStep)
        } else {
            Ok(SimulationClock { fixed_step, accumulator: 0 })
        }
    }

    /// Feed one wall-clock delta and hand back the number of whole
    /// fixed steps it covers together with what was already carried;
    /// the remainder is carried forward. No partial step is ever
    /// advanced.
    pub fn advance(&mut self, wall_delta: u64) -> (steps: u64)
        requires
            old(self).wf(),
            old(self).accumulator + wall_delta <= u64::MAX,
        ensures
            final(self).fixed_step == old(self).fixed_step,
            final(self).wf(),
            steps == (old(self).accumulator + wall_delta) / old(self).fixed_step as int,
            final(self).accumulator == (old(self).accumulator + wall_delta) % old(
                self,
            ).fixed_step as int,
            steps * old(self).fixed_step + final(self).accumulator == old(self).accumulator
                + wall_delta,
    {
        let total = self.accumulator + wall_delta;
        let steps = total / self.fixed_step;
        self.accumulator = total % self.fixed_step;
        proof {
            lemma_fundamental_div_mod(total as int, self.fixed_step as int);
        }
        steps
    }
}

/// Total of a sequence of wall-clock deltas.
pub open spec fn spec_sum(deltas: Seq<u64>) -> int
    decreases deltas.len(),
{
    if deltas.len() == 0 {
        0
    } else {
        deltas.first() + spec_sum(deltas.drop_first())
    }
}

/// Whole steps handed out when `deltas` are fed one by one into an
/// accumulator that starts at `acc`.
pub open spec fn spec_steps_of_run(step: int, acc: int, deltas: Seq<u64>) -> int
    decreases deltas.len(),
{
    if deltas.len() == 0 || step <= 0 {
        0
    } else {
        (acc + deltas.first()) / step + spec_steps_of_run(
            step,
            (acc + deltas.first()) % step,
            deltas.drop_first(),
        )
    }
}

/// Remainder carried after `deltas` are fed one by one into an
/// accumulator that starts at `acc`.
pub open spec fn spec_acc_of_run(step: int, acc: int, deltas: Seq<u64>) -> int
    decreases deltas.len(),
{
    if deltas.len() == 0 || step <= 0 {
        acc
    } else {
        spec_acc_of_run(step, (acc + deltas.first()) % step, deltas.drop_first())
    }
}

proof fn lemma_sum_nonneg(deltas: Seq<u64>)
    ensures
        spec_sum(deltas) >= 0,
    decreases deltas.len(),
{
    if deltas.len() > 0 {
        lemma_sum_nonneg(deltas.drop_first());
    }
}

/// Feeding deltas chunk by chunk consumes exactly the whole steps of
/// the grand total and carries exactly its remainder: the accumulator
/// never advances a partial step and never loses time.
pub proof fn lemma_accumulator_exact(step: int, acc: int, deltas: Seq<u64>)
    requires
        0 < step,
        0 <= acc < step,
    ensures
        spec_steps_of_run(step, acc, deltas) == (acc + spec_sum(deltas)) / step,
        spec_acc_of_run(step, acc, deltas) == (acc + spec_sum(deltas)) % step,
    decreases deltas.len(),
{
    lemma_sum_nonneg(deltas);
    if deltas.len() == 0 {
        lemma_fundamental_div_mod_converse_div(acc + spec_sum(deltas), step, 0, acc);
        lemma_fundamental_div_mod_converse_mod(acc + spec_sum(deltas), step, 0, acc);
    } else {
        let t = acc + deltas.first();
        let q = t / step;
        let r = t % step;
        lemma_fundamental_div_mod(t, step);
        lemma_accumulator_exact(step, r, deltas.drop_first());
        let rest = spec_sum(deltas.drop_first());
        let s2 = spec_steps_of_run(step, r, deltas.drop_first());
        lemma_fundamental_div_mod(r + rest, step);
        assert(s2 == (r + rest) / step);
        assert(acc + spec_sum(deltas) == (q + s2) * step + (r + rest) % step) by (nonlinear_arith)
            requires
                t == q * step + r,
                spec_sum(deltas) == deltas.first() + rest,
                t == acc + deltas.first(),
                s2 * step + (r + rest) % step == r + rest,
        {}
        lemma_fundamental_div_mod_converse_div(
            acc + spec_sum(deltas),
            step,
            q + s2,
            (r + rest) % step,
        );
        lemma_fundamental_div_mod_converse_mod(
            acc + spec_sum(deltas),
            step,
            q + s2,
            (r + rest) % step,
        );
    }
}

/// Re-chunking invariance: two wall-clock delta sequences with the
/// same total leave the integrator with the same number of ticks run
/// and the same carried remainder, however differently the total was
/// split up.
pub proof fn lemma_rechunking_agrees(step: int, d1: Seq<u64>, d2: Seq<u64>)
    requires
        0 < step,
        spec_sum(d1) == spec_sum(d2),
    ensures
        spec_steps_of_run(step, 0, d1) == spec_steps_of_run(step, 0, d2),
        spec_acc_of_run(step, 0, d1) == spec_acc_of_run(step, 0, d2),
{
    lemma_accumulator_exact(step, 0, d1);
    lemma_accumulator_exact(step, 0, d2);
}

} // verus!
