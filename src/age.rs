use crate::staging::Staged;
use vstd::prelude::*;

verus! {

/// The largest age accepted.
pub const MAX_AGE: u8 = 120;

#[derive(Debug, Clone, Copy, PartialEq, Eq, Structural)]
pub enum AgeParsingError {
    TooOld,
}

impl AgeParsingError {
    pub fn message(&self) -> (r: String)
        ensures
            r@ == "Too old"@,
    {
        String::from_str("Too old")
    }
}

/// An age in years, between 0 and 120 inclusive.
#[derive(Debug, Clone, Copy)]
pub struct Age(u8);

impl Age {
    pub closed spec fn spec_value(&self) -> u8 {
        self.0
    }

    /// The age holding `v`.
    pub closed spec fn spec_new(v: u8) -> Age {
        Age(v)
    }

    /// The outcome of validating `v`.
    pub open spec fn spec_outcome(v: u8) -> Result<Age, AgeParsingError> {
        if v <= MAX_AGE {
            Ok(Age::spec_new(v))
        } else {
            Err(AgeParsingError::TooOld)
        }
    }

    #[verifier::type_invariant]
    closed spec fn inv(&self) -> bool {
        self.0 <= MAX_AGE
    }

    /// Accepts `value` exactly when it is at most 120.
    pub fn try_from(value: u8) -> (r: Result<Age, AgeParsingError>)
        ensures
            value <= MAX_AGE <==> r is Ok,
            r is Ok ==> r->Ok_0.spec_value() == value,
            r is Err ==> r->Err_0 == AgeParsingError::TooOld,
            r == Age::spec_outcome(value),
    {
        if value > MAX_AGE {
            return Err(AgeParsingError::TooOld);
        }
        Ok(Age(value))
    }

    pub fn value(&self) -> (r: u8)
        ensures
            r == self.spec_value(),
            r <= MAX_AGE,
    {
        proof {
            use_type_invariant(self);
        }
        self.0
    }

    /// The age as an index-sized integer.
    pub fn to_usize(&self) -> (r: usize)
        ensures
            r == self.spec_value() as usize,
    {
        self.0 as usize
    }
}

impl Staged for Age {
    type Raw = u8;

    type Error = AgeParsingError;

    open spec fn outcome_of(raw: u8, r: Result<Age, AgeParsingError>) -> bool {
        &&& r == Age::spec_outcome(raw)
        &&& r is Ok ==> r->Ok_0.spec_value() == raw
    }

    open spec fn is_default_raw(raw: u8) -> bool {
        raw == 0
    }

    fn default_raw() -> (r: u8) {
        0
    }

    fn copy_raw(raw: &u8) -> (r: u8) {
        *raw
    }

    fn copy_outcome(r: &Result<Age, AgeParsingError>) -> (c: Result<Age, AgeParsingError>) {
        match r {
            Ok(a) => Ok(*a),
            Err(e) => Err(*e),
        }
    }

    fn validate(raw: u8) -> (r: Result<Age, AgeParsingError>) {
        Age::try_from(raw)
    }
}

/// An age field: the raw number being edited.
#[derive(Debug, Default)]
pub struct StagingAge(pub u8);

impl StagingAge {
    /// Stores `raw` as the value being edited and validates it.
    pub fn update(&mut self, raw: u8) -> (r: Result<Age, AgeParsingError>)
        ensures
            final(self).0 == raw,
            raw <= MAX_AGE <==> r is Ok,
            r is Ok ==> r->Ok_0.spec_value() == raw,
            r is Err ==> r->Err_0 == AgeParsingError::TooOld,
            r == Age::spec_outcome(raw),
    {
        self.0 = raw;
        Age::try_from(self.0)
    }

    /// Validates the value being edited.
    pub fn state(&self) -> (r: Result<Age, AgeParsingError>)
        ensures
            self.0 <= MAX_AGE <==> r is Ok,
            r is Ok ==> r->Ok_0.spec_value() == self.0,
            r == Age::spec_outcome(self.0),
    {
        Age::try_from(self.0)
    }
}

} // verus!
