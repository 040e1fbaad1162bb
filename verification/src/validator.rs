//! Response validation: checking a response's status code against the
//! scenario's ordered list of expected-status rules. Rules are evaluated in
//! declaration order and the first mismatch wins; an empty rule list
//! accepts every response.

use crate::data::Validation;
use vstd::prelude::*;

verus! {

/// A failed validation. Validation failures are observational: a worker
/// reports them and keeps processing further responses.
#[derive(Clone, Copy, Debug, PartialEq, Eq, Structural)]
pub enum ValidationError {
    Status { expected: u16, got: u16 },
}

/// The decimal digit `d` as a character.
pub open spec fn digit_char(d: int) -> char {
    if d == 0 {
        '0'
    } else if d == 1 {
        '1'
    } else if d == 2 {
        '2'
    } else if d == 3 {
        '3'
    } else if d == 4 {
        '4'
    } else if d == 5 {
        '5'
    } else if d == 6 {
        '6'
    } else if d == 7 {
        '7'
    } else if d == 8 {
        '8'
    } else {
        '9'
    }
}

/// The decimal representation of `n`, most significant digit first.
pub open spec fn decimal_seq(n: nat) -> Seq<char>
    decreases n,
{
    if n < 10 {
        seq![digit_char(n as int)]
    } else {
        decimal_seq(n / 10).push(digit_char((n % 10) as int))
    }
}

/// The report a failed validation carries, e.g.
/// `validation error: status invalid: expected=200, got=404`.
pub open spec fn message_seq(e: ValidationError) -> Seq<char> {
    match e {
        ValidationError::Status { expected, got } => "validation error: status invalid: expected="@
            + decimal_seq(expected as nat) + ", got="@ + decimal_seq(got as nat),
    }
}

fn digit_str(d: u16) -> (r: &'static str)
    requires
        d < 10,
    ensures
        r@ == seq![digit_char(d as int)],
{
    let r: &'static str = if d == 0 {
        "0"
    } else if d == 1 {
        "1"
    } else if d == 2 {
        "2"
    } else if d == 3 {
        "3"
    } else if d == 4 {
        "4"
    } else if d == 5 {
        "5"
    } else if d == 6 {
        "6"
    } else if d == 7 {
        "7"
    } else if d == 8 {
        "8"
    } else {
        "9"
    };
    proof {
        reveal_strlit("0");
        reveal_strlit("1");
        reveal_strlit("2");
        reveal_strlit("3");
        reveal_strlit("4");
        reveal_strlit("5");
        reveal_strlit("6");
        reveal_strlit("7");
        reveal_strlit("8");
        reveal_strlit("9");
        assert(r@ =~= seq![digit_char(d as int)]);
    }
    r
}

fn decimal_string(n: u16) -> (r: String)
    ensures
        r@ == decimal_seq(n as nat),
    decreases n,
{
    if n < 10 {
        String::from_str(digit_str(n))
    } else {
        let mut s = decimal_string(n / 10);
        s.append(digit_str(n % 10));
        proof {
            assert(s@ =~= decimal_seq(n as nat));
        }
        s
    }
}

impl ValidationError {
    /// One-line report of what failed, with the expected and the observed
    /// status code.
    pub fn message(&self) -> (r: String)
        ensures
            r@ == message_seq(*self),
    {
        match *self {
            ValidationError::Status { expected, got } => {
                let mut s = String::from_str("validation error: status invalid: expected=");
                let e = decimal_string(expected);
                s.append(e.as_str());
                s.append(", got=");
                let g = decimal_string(got);
                s.append(g.as_str());
                s
            },
        }
    }

    /// Short name of the failure kind.
    pub fn description(&self) -> (r: &'static str)
        ensures
            r@ == "status invalid"@,
    {
        "status invalid"
    }
}

/// What validation returns for `rules` applied to a response with status
/// `status`: `Ok` when every rule's expected code matches, otherwise the
/// mismatch against the first rule that differs.
pub open spec fn validate_result(rules: Seq<Validation>, status: u16) -> Result<
    (),
    ValidationError,
>
    decreases rules.len(),
{
    if rules.len() == 0 {
        Ok(())
    } else if rules[0].status_code != status {
        Err(ValidationError::Status { expected: rules[0].status_code, got: status })
    } else {
        validate_result(rules.subrange(1, rules.len() as int), status)
    }
}

/// Checks responses against the scenario's validation rules.
#[derive(Clone)]
pub struct Validator {
    validations: Vec<Validation>,
}

impl Validator {
    /// The rules this validator applies, in evaluation order.
    pub closed spec fn rules(&self) -> Seq<Validation> {
        self.validations@
    }

    /// A validator over the scenario's rules; no rules means every response
    /// passes.
    pub fn new(validations: Option<Vec<Validation>>) -> (r: Self)
        ensures
            r.rules() == match validations {
                Some(v) => v@,
                None => Seq::<Validation>::empty(),
            },
    {
        let validations = match validations {
            Some(v) => v,
            None => Vec::new(),
        };
        Self { validations }
    }

    /// Check a response's status code against the rules, in order; the
    /// first rule whose expected code differs decides the result.
    pub fn validate(&self, status: u16) -> (r: Result<(), ValidationError>)
        ensures
            r == validate_result(self.rules(), status),
    {
        let n = self.validations.len();
        proof {
            assert(self.rules().subrange(0, n as int) =~= self.rules());
        }
        let mut i: usize = 0;
        while i < n
            invariant
                i <= n,
                n == self.rules().len(),
                validate_result(self.rules(), status) == validate_result(
                    self.rules().subrange(i as int, n as int),
                    status,
                ),
                forall|j: int| 0 <= j < i ==> self.rules()[j].status_code == status,
            decreases n - i,
        {
            let v = &self.validations[i];
            if v.status_code != status {
                proof {
                    assert(self.rules().subrange(i as int, n as int)[0] == self.rules()[i as int]);
                }
                return Err(ValidationError::Status { expected: v.status_code, got: status });
            }
            proof {
                let tail = self.rules().subrange(i as int, n as int);
                assert(tail[0] == self.rules()[i as int]);
                assert(tail.subrange(1, tail.len() as int) =~= self.rules().subrange(
                    i + 1,
                    n as int,
                ));
            }
            i = i + 1;
        }
        proof {
            assert(self.rules().subrange(n as int, n as int) =~= Seq::<Validation>::empty());
        }
        Ok(())
    }
}

} // verus!
