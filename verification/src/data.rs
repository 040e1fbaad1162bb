//! The scenario value that a run consumes: target URL, exit condition,
//! pace, and validation rules. A scenario is built once by a loader and is
//! read-only for the rest of the run.
//!
//! All durations are in nanoseconds.

use crate::pace::Rate;
use vstd::prelude::*;

verus! {

/// How the pace of a run is described. Matched exhaustively wherever a
/// pacer is needed, so every variant must support the same
/// wait/stop decision (see `crate::pace`).
#[derive(Clone, Copy, Debug, PartialEq, Eq, Structural)]
pub enum Pace {
    Rate { freq: u64, per: u64 },
}

impl Pace {
    pub open spec fn freq(&self) -> u64 {
        match *self {
            Pace::Rate { freq, .. } => freq,
        }
    }

    pub open spec fn per(&self) -> u64 {
        match *self {
            Pace::Rate { per, .. } => per,
        }
    }
}

impl Default for Pace {
    /// One request per second.
    fn default() -> (r: Self)
        ensures
            r == (Pace::Rate { freq: 1, per: 1_000_000_000 }),
    {
        Pace::Rate { freq: 1, per: 1_000_000_000 }
    }
}

/// When a run stops producing new requests: after a wall-clock period, or
/// once enough requests have been scheduled.
#[derive(Clone, Copy, Debug, PartialEq, Eq, Structural)]
pub enum ExitKind {
    Period(u64),
    Count(usize),
}

impl Default for ExitKind {
    /// Run for one minute.
    fn default() -> (r: Self)
        ensures
            r == ExitKind::Period(60_000_000_000),
    {
        ExitKind::Period(60_000_000_000)
    }
}

/// One validation rule: the status code every response is expected to carry.
#[derive(Clone, Debug, PartialEq)]
pub struct Validation {
    pub name: String,
    pub status_code: u16,
}

/// An in-memory scenario, already parsed and validated by its loader.
#[derive(Clone, Debug, PartialEq)]
pub struct Scenario {
    pub name: String,
    pub url: String,
    pub exit: ExitKind,
    pub pace: Pace,
    /// Transport pool idle timeout, in nanoseconds; affects pooling only.
    pub idle_timeout: Option<u64>,
    pub validation: Option<Vec<Validation>>,
}

/// Run duration derived from a `Count(cnt)` exit condition: the time needed
/// to emit `cnt` events at the pace's instantaneous rate at zero elapsed
/// time, i.e. exactly `cnt / (freq / per)` = `cnt * per / freq` nanoseconds.
/// A rate of zero events (`freq == 0`, `cnt > 0`) has no finite answer and
/// saturates; results over `u64::MAX` nanoseconds saturate as well.
pub open spec fn count_exit_nanos(cnt: usize, freq: u64, per: u64) -> int {
    if per == 0 {
        0
    } else if freq == 0 {
        if cnt == 0 {
            0
        } else {
            u64::MAX as int
        }
    } else {
        let nanos = (cnt as int * per as int) / freq as int;
        if nanos > u64::MAX as int {
            u64::MAX as int
        } else {
            nanos
        }
    }
}

/// The wall-clock span a scenario's scheduler may emit tokens for, derived
/// once per run from the exit condition.
pub open spec fn run_duration_nanos(s: Scenario) -> int {
    match s.exit {
        ExitKind::Period(t) => t as int,
        ExitKind::Count(cnt) => count_exit_nanos(cnt, s.pace.freq(), s.pace.per()),
    }
}

impl Scenario {
    pub fn name(&self) -> (r: &String)
        ensures
            r@ == self.name@,
    {
        &self.name
    }

    pub fn url(&self) -> (r: &String)
        ensures
            r@ == self.url@,
    {
        &self.url
    }

    /// The pacer installed by this scenario's pace description.
    pub fn pacer(&self) -> (r: Rate)
        ensures
            self.pace == (Pace::Rate { freq: r.freq, per: r.per }),
    {
        match self.pace {
            Pace::Rate { freq, per } => Rate { freq, per },
        }
    }

    /// Derive the run duration from the exit condition: a `Period` is taken
    /// as given; a `Count` is converted through the pace's rate (see
    /// `count_exit_nanos`). Derived once per run and cached, never
    /// re-evaluated while the run is going.
    pub fn duration(&self) -> (d: u64)
        ensures
            d == run_duration_nanos(*self),
    {
        match self.exit {
            ExitKind::Period(t) => t,
            ExitKind::Count(cnt) => {
                match self.pace {
                    Pace::Rate { freq, per } => {
                        if per == 0 {
                            0
                        } else if freq == 0 {
                            if cnt == 0 {
                                0
                            } else {
                                u64::MAX
                            }
                        } else {
                            proof {
                                assert((cnt as u128) * (per as u128) <= (u64::MAX as u128) * (
                                u64::MAX as u128)) by (nonlinear_arith)
                                    requires
                                        cnt as u128 <= u64::MAX as u128,
                                        per <= u64::MAX,
                                ;
                            }
                            let num: u128 = (cnt as u128) * (per as u128);
                            let nanos: u128 = num / (freq as u128);
                            if nanos > u64::MAX as u128 {
                                u64::MAX
                            } else {
                                nanos as u64
                            }
                        }
                    },
                }
            },
        }
    }

    /// A copy of the validation rules, `None` when the scenario configures
    /// none.
    pub fn validations(&self) -> (r: Option<Vec<Validation>>)
        ensures
            r is Some <==> self.validation is Some,
            r matches Some(w) ==> w@ == self.validation->Some_0@,
    {
        match &self.validation {
            None => None,
            Some(v) => {
                let n = v.len();
                let mut out: Vec<Validation> = Vec::new();
                let mut i: usize = 0;
                while i < n
                    invariant
                        i <= n,
                        n == v@.len(),
                        out@.len() == i,
                        forall|j: int| 0 <= j < i ==> out@[j] == v@[j],
                        self.validation matches Some(vv) && vv@ == v@,
                    decreases n - i,
                {
                    let rule = Validation { name: v[i].name.clone(), status_code: v[i].status_code };
                    out.push(rule);
                    i = i + 1;
                }
                proof {
                    assert(out@ =~= v@);
                }
                Some(out)
            },
        }
    }
}

} // verus!
