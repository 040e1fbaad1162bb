//! The run's control structure. A run has one scheduler task that paces
//! dispatch tokens into a bounded channel and a fixed pool of workers that
//! consume them, perform one GET each, and validate the response.
//!
//! What is here is every decision those tasks take: given the elapsed time
//! and the number of tokens emitted so far, whether the scheduler stops,
//! and how long it waits before the next token. The sleeps, the channel and
//! the transport live with the caller that drives the loop; it performs the
//! chosen action and reports back the next elapsed time.

use crate::data::{Pace, Scenario};
use crate::pace::{expected_hits, next_due, pace_fits, pace_wait, Rate};
use crate::validator::Validator;
use vstd::arithmetic::div_mod::{
    lemma_div_by_multiple, lemma_div_is_ordered, lemma_div_multiples_vanish,
    lemma_multiply_divide_lt,
};
use vstd::arithmetic::mul::lemma_mul_is_commutative;
use vstd::prelude::*;

verus! {

/// What the scheduler does with one loop iteration.
#[derive(Clone, Copy, Debug, PartialEq, Eq, Structural)]
pub enum StepDecision {
    /// The run duration is exhausted: stop producing.
    Exit,
    /// The pacer asked to stop (a self-limiting pace model).
    PacerStop,
    /// Sleep `wait` nanoseconds, then emit one dispatch token.
    Fire { wait: u64 },
}

/// Everything a run needs: the scenario, the derived run duration in
/// nanoseconds, and the validator built from the scenario's rules.
pub struct Runner {
    pub scenario: Scenario,
    pub run_duration: u64,
    pub validator: Validator,
}

impl Runner {
    /// The scheduler's decision for one iteration: stop when `elapsed` has
    /// passed the run duration, otherwise ask the pacer how long to wait
    /// before emitting the next token. `None` exactly where the pacer's
    /// schedule cannot represent the wait (see `crate::pace::pace_fits`).
    pub fn step(&self, elapsed: u64, hits: u64) -> (r: Option<StepDecision>)
        ensures
            elapsed > self.run_duration ==> r == Some(StepDecision::Exit),
            elapsed <= self.run_duration && pace_fits(
                self.scenario.pace.freq(),
                self.scenario.pace.per(),
                elapsed,
                hits,
            ) ==> r == Some(
                (StepDecision::Fire {
                    wait: (pace_wait(
                        self.scenario.pace.freq(),
                        self.scenario.pace.per(),
                        elapsed,
                        hits,
                    ) as u64),
                }),
            ),
            r is None <==> (elapsed <= self.run_duration && !pace_fits(
                self.scenario.pace.freq(),
                self.scenario.pace.per(),
                elapsed,
                hits,
            )),
    {
        if elapsed > self.run_duration {
            return Some(StepDecision::Exit);
        }
        let pacer = self.scenario.pacer();
        match pacer.try_pace(elapsed, hits) {
            None => None,
            Some((wait, stop)) => {
                if stop {
                    Some(StepDecision::PacerStop)
                } else {
                    Some(StepDecision::Fire { wait })
                }
            },
        }
    }

    /// How many requests a whole run completes when every sleep ends
    /// exactly on schedule, sends are instant and the transport always
    /// succeeds: the scheduler emits one token per tick until the duration
    /// is exhausted, and since the channel drains before the workers are
    /// joined, every emitted token becomes one completed request.
    ///
    /// Stated for a one-event-per-interval pace; the count is one more
    /// than the number of whole intervals in the run duration, because a
    /// token is also emitted for the tick that ends exactly at the cutoff.
    pub fn drained_requests(&self) -> (count: u64)
        requires
            self.scenario.pace.freq() == 1,
            self.scenario.pace.per() >= 1,
            self.run_duration <= u64::MAX - self.scenario.pace.per(),
        ensures
            count == self.run_duration as int / self.scenario.pace.per() as int + 1,
    {
        let per: u64 = match self.scenario.pace {
            Pace::Rate { per, .. } => per,
        };
        let ghost d = self.run_duration as int;
        let mut hits: u64 = 0;
        let mut elapsed: u64 = 0;
        while elapsed <= self.run_duration
            invariant
                self.scenario.pace.freq() == 1,
                self.scenario.pace.per() == per,
                per >= 1,
                self.run_duration <= u64::MAX - per,
                d == self.run_duration as int,
                elapsed == hits as int * per as int,
                hits == 0 || (hits as int - 1) * per as int <= d,
            decreases d + per - elapsed,
        {
            proof {
                lemma_div_multiples_vanish(hits as int, per as int);
                lemma_mul_is_commutative(per as int, hits as int);
                assert(elapsed as int / per as int == hits);
                assert(expected_hits(1u64, per, elapsed) == hits);
                lemma_div_multiples_vanish((hits as int + 1) * per as int, 1);
                assert(next_due(1u64, per, hits) == (hits as int + 1) * per as int);
                assert((hits as int + 1) * per as int == hits as int * per as int + per as int)
                    by (nonlinear_arith);
                assert(pace_fits(1u64, per, elapsed, hits));
            }
            let r = self.step(elapsed, hits);
            match r {
                Some(StepDecision::Fire { wait }) => {
                    elapsed = elapsed + wait;
                    hits = hits + 1;
                },
                _ => {
                    proof {
                        assert(false);
                    }
                },
            }
        }
        proof {
            assert(hits >= 1) by {
                if hits == 0 {
                    assert(elapsed == 0);
                }
            }
            lemma_mul_is_commutative(per as int, hits as int);
            assert(d < per as int * hits as int);
            lemma_multiply_divide_lt(d, per as int, hits as int);
            lemma_div_by_multiple(hits as int - 1, per as int);
            lemma_div_is_ordered((hits as int - 1) * per as int, d, per as int);
            assert(hits as int - 1 <= d / per as int);
        }
        hits
    }
}

/// Builds a `Runner` step by step; each field slots in independently and
/// `build` is only offered once all three are present.
pub struct RunnerBuilder<ScenarioType, DurationType, ValidatorType> {
    pub scenario: ScenarioType,
    pub run_duration: DurationType,
    pub validator: ValidatorType,
}

impl RunnerBuilder<(), (), ()> {
    pub fn new() -> (r: Self)
        ensures
            r == (RunnerBuilder { scenario: (), run_duration: (), validator: () }),
    {
        RunnerBuilder { scenario: (), run_duration: (), validator: () }
    }
}

impl RunnerBuilder<Scenario, u64, Validator> {
    pub fn build(self) -> (r: Runner)
        ensures
            r.scenario == self.scenario,
            r.run_duration == self.run_duration,
            r.validator == self.validator,
    {
        Runner {
            scenario: self.scenario,
            run_duration: self.run_duration,
            validator: self.validator,
        }
    }
}

impl<ScenarioType, DurationType, ValidatorType> RunnerBuilder<
    ScenarioType,
    DurationType,
    ValidatorType,
> {
    pub fn scenario(self, scenario: Scenario) -> (r: RunnerBuilder<
        Scenario,
        DurationType,
        ValidatorType,
    >)
        ensures
            r.scenario == scenario,
            r.run_duration == self.run_duration,
            r.validator == self.validator,
    {
        RunnerBuilder { scenario, run_duration: self.run_duration, validator: self.validator }
    }

    pub fn run_duration(self, run_duration: u64) -> (r: RunnerBuilder<
        ScenarioType,
        u64,
        ValidatorType,
    >)
        ensures
            r.scenario == self.scenario,
            r.run_duration == run_duration,
            r.validator == self.validator,
    {
        RunnerBuilder { scenario: self.scenario, run_duration, validator: self.validator }
    }

    pub fn validator(self, validator: Validator) -> (r: RunnerBuilder<
        ScenarioType,
        DurationType,
        Validator,
    >)
        ensures
            r.scenario == self.scenario,
            r.run_duration == self.run_duration,
            r.validator == validator,
    {
        RunnerBuilder { scenario: self.scenario, run_duration: self.run_duration, validator }
    }
}

} // verus!
