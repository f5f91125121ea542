//! Response status codes.

use vstd::prelude::*;

verus! {

/// The error for a number that is no status code.
#[derive(Debug, Clone, Copy, PartialEq, Eq, Structural)]
pub struct InvalidStatusCode;

/// A status code: a number of three digits.
#[derive(Debug, Clone, Copy, PartialEq, Eq, Structural)]
pub struct StatusCode(u16);

/// Whether a number is a status code: from 100 up to 999.
pub open spec fn is_status_code(n: u16) -> bool {
    100 <= n < 1000
}

impl StatusCode {
    /// The code of a number.
    pub closed spec fn of(code: u16) -> StatusCode {
        StatusCode(code)
    }

    /// The number of this code.
    pub closed spec fn code(self) -> u16 {
        self.0
    }

    #[verifier::type_invariant]
    spec fn in_range(self) -> bool {
        is_status_code(self.0)
    }

    /// The code for a number, or an error where the number has not three digits.
    pub fn from_u16(src: u16) -> (r: Result<StatusCode, InvalidStatusCode>)
        ensures
            is_status_code(src) ==> r == Ok::<StatusCode, InvalidStatusCode>(Self::of(src)),
            !is_status_code(src) ==> r is Err,
    {
        if src < 100 || src >= 1000 {
            return Err(InvalidStatusCode);
        }
        Ok(StatusCode(src))
    }

    /// The number of this code.
    pub fn as_u16(self) -> (n: u16)
        ensures
            n == self.code(),
            is_status_code(n),
    {
        proof {
            use_type_invariant(self);
        }
        self.0
    }

    /// 404, the code of a response that found nothing.
    pub fn not_found() -> (status: StatusCode)
        ensures
            status == Self::of(404),
    {
        StatusCode(404)
    }

    /// A code is known by its number.
    pub broadcast proof fn number_of_code(code: u16)
        ensures
            (#[trigger] Self::of(code)).code() == code,
    {
    }

    /// A code is the code of its number.
    pub broadcast proof fn code_of_number(self)
        ensures
            Self::of(#[trigger] self.code()) == self,
    {
    }
}

} // verus!
