use crate::staging::Staged;
use vstd::prelude::*;

verus! {

#[derive(Debug, Clone, Copy, PartialEq, Eq, Structural)]
pub enum BoundedStringParsingError {
    TooShort { min: usize, actual: usize },
    TooLong { max: usize, actual: usize },
}

/// The outcome of bounding a text of `len` characters to `[min, max]`:
/// `None` where it fits.
pub open spec fn bound_error(min: usize, max: usize, len: nat) -> Option<BoundedStringParsingError> {
    if len < min {
        Some(BoundedStringParsingError::TooShort { min, actual: len as usize })
    } else if len > max {
        Some(BoundedStringParsingError::TooLong { max, actual: len as usize })
    } else {
        None
    }
}

/// A string whose length in characters lies in `[MIN, MAX]`.
#[derive(Debug, PartialEq, Eq)]
pub struct BoundedString<const MIN: usize, const MAX: usize> {
    value: String,
}

impl<const MIN: usize, const MAX: usize> View for BoundedString<MIN, MAX> {
    type V = Seq<char>;

    closed spec fn view(&self) -> Seq<char> {
        self.value@
    }
}

impl<const MIN: usize, const MAX: usize> BoundedString<MIN, MAX> {
    #[verifier::type_invariant]
    closed spec fn inv(&self) -> bool {
        MIN <= self.value@.len() <= MAX
    }

    /// The string holding `raw`.
    pub closed spec fn spec_from(raw: String) -> Self {
        BoundedString { value: raw }
    }

    /// The outcome of bounding `raw`: the string holding it, or the bound it
    /// breaks.
    pub open spec fn spec_outcome(raw: String) -> Result<Self, BoundedStringParsingError> {
        match bound_error(MIN, MAX, raw@.len()) {
            Some(e) => Err(e),
            None => Ok(Self::spec_from(raw)),
        }
    }

    /// Accepts `value` exactly when its length in characters lies in
    /// `[MIN, MAX]`; the text is kept as it is.
    pub fn try_from(value: String) -> (r: Result<Self, BoundedStringParsingError>)
        ensures
            r is Ok <==> MIN <= value@.len() <= MAX,
            r is Ok ==> r->Ok_0@ == value@,
            r is Err ==> Some(r->Err_0) == bound_error(MIN, MAX, value@.len()),
            r == Self::spec_outcome(value),
    {
        let len = value.as_str().unicode_len();
        if len < MIN {
            return Err(BoundedStringParsingError::TooShort { min: MIN, actual: len });
        }
        if len > MAX {
            return Err(BoundedStringParsingError::TooLong { max: MAX, actual: len });
        }
        Ok(BoundedString { value })
    }

    /// A copy of this string.
    pub fn copy(&self) -> (r: Self)
        ensures
            r == *self,
    {
        proof {
            use_type_invariant(self);
        }
        BoundedString { value: self.value.clone() }
    }

    pub fn as_str(&self) -> (r: &str)
        ensures
            r@ == self@,
            MIN <= r@.len() <= MAX,
    {
        proof {
            use_type_invariant(self);
        }
        self.value.as_str()
    }
}

impl<const MIN: usize, const MAX: usize> Staged for BoundedString<MIN, MAX> {
    type Raw = String;

    type Error = BoundedStringParsingError;

    open spec fn outcome_of(raw: String, r: Result<Self, BoundedStringParsingError>) -> bool {
        &&& r == Self::spec_outcome(raw)
        &&& r is Ok ==> r->Ok_0@ == raw@
    }

    open spec fn is_default_raw(raw: String) -> bool {
        raw@.len() == 0
    }

    fn default_raw() -> (r: String) {
        String::new()
    }

    fn copy_raw(raw: &String) -> (r: String) {
        raw.clone()
    }

    fn copy_outcome(r: &Result<Self, BoundedStringParsingError>) -> (c: Result<
        Self,
        BoundedStringParsingError,
    >) {
        match r {
            Ok(b) => Ok(b.copy()),
            Err(e) => Err(*e),
        }
    }

    fn validate(raw: String) -> (r: Result<Self, BoundedStringParsingError>) {
        BoundedString::try_from(raw)
    }
}

} // verus!
