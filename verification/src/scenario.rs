//! Run coordination: wiring a scenario into the runner that a run's
//! scheduler and workers consult. Pure orchestration — the validator comes
//! from the scenario's rules, the run duration from its exit condition.

use crate::data::{run_duration_nanos, Scenario};
use crate::runner::{Runner, RunnerBuilder};
use crate::validator::Validator;
use vstd::prelude::*;

verus! {

/// The runner for one run of `scenario`: the scenario itself, the run
/// duration derived from its exit condition, and a validator over its
/// rules. The caller drives the run loops against the result's decisions.
pub fn prepare(scenario: Scenario) -> (r: Runner)
    ensures
        r.scenario == scenario,
        r.run_duration == run_duration_nanos(scenario),
        r.validator.rules() == match scenario.validation {
            Some(v) => v@,
            None => Seq::<crate::data::Validation>::empty(),
        },
{
    let validator = Validator::new(scenario.validations());
    let duration = scenario.duration();

    RunnerBuilder::new().scenario(scenario).validator(validator).run_duration(duration).build()
}

} // verus!
