//! A guess known to lie in the accepted range, and the error that reports one
//! that does not.
use vstd::prelude::*;
use vstd::string::StringExecFns;

verus! {

/// The smallest value a guess may hold.
pub const LOWEST: i32 = 1;

/// The largest value a guess may hold.
pub const HIGHEST: i32 = 100;

/// Whether `v` lies in the accepted range.
pub open spec fn in_range(v: int) -> bool {
    LOWEST <= v <= HIGHEST
}

/// The text a validation failure carries.
pub open spec fn range_message() -> Seq<char> {
    "Value should be between 1 and 100"@
}

/// A failed validation: a value outside the accepted range.
#[derive(Debug)]
pub struct ValError {
    msg: String,
}

impl View for ValError {
    type V = Seq<char>;

    closed spec fn view(&self) -> Seq<char> {
        self.msg@
    }
}

impl ValError {
    /// The human-readable text of the failure.
    pub fn message(&self) -> (r: String)
        ensures
            r@ == self@,
    {
        self.msg.clone()
    }
}

/// An integer known to lie between `LOWEST` and `HIGHEST`, inclusive.
pub struct Guess {
    value: i32,
}

impl View for Guess {
    type V = i32;

    closed spec fn view(&self) -> i32 {
        self.value
    }
}

impl Guess {
    #[verifier::type_invariant]
    spec fn inv(self) -> bool {
        in_range(self.value as int)
    }

    /// Validates `val`: a guess holding it when it lies in range, the
    /// range message otherwise.
    pub fn new(val: i32) -> (r: Result<Guess, ValError>)
        ensures
            r is Ok <==> in_range(val as int),
            r matches Ok(g) ==> g@ == val,
            r matches Err(e) ==> e@ == range_message(),
    {
        if val < LOWEST || val > HIGHEST {
            return Err(ValError { msg: String::from_str("Value should be between 1 and 100") });
        }
        Ok(Guess { value: val })
    }

    /// The wrapped value.
    pub fn value(&self) -> (r: i32)
        ensures
            r == self@,
            in_range(r as int),
    {
        proof {
            use_type_invariant(self);
        }
        self.value
    }
}

} // verus!
