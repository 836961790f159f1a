use vstd::prelude::*;

use crate::error::Error;
use crate::text::{decimal_signed, spec_decimal_signed};

verus! {

/// The status code that pjlib returns on success.
pub const PJ_SUCCESS: i32 = 0;

/// A pjlib status code (`pj_status_t`).
#[derive(Clone, Copy, Debug, PartialEq, Eq, Structural)]
pub struct PjStatus(pub i32);

/// The outcome that a status code stands for: `Ok` for `PJ_SUCCESS`,
/// otherwise the error carrying the status.
pub open spec fn status_result(status: i32) -> Result<(), Error> {
    if status == PJ_SUCCESS {
        Ok(())
    } else {
        Err(Error::PjError(PjStatus(status)))
    }
}

impl PjStatus {
    pub fn new(status: i32) -> (r: Self)
        ensures
            r.0 == status,
    {
        Self(status)
    }

    /// `Ok(())` exactly when `status` is `PJ_SUCCESS`, otherwise the error
    /// that carries the status.
    pub fn result_for_status(status: i32) -> (r: Result<(), Error>)
        ensures
            r == status_result(status),
    {
        if status == PJ_SUCCESS {
            return Ok(());
        }
        Err(Error::PjError(Self::new(status)))
    }

    pub fn is_success(&self) -> (r: bool)
        ensures
            r == (self.0 == PJ_SUCCESS),
    {
        self.0 == PJ_SUCCESS
    }

    pub fn is_err(&self) -> (r: bool)
        ensures
            r == (self.0 != PJ_SUCCESS),
    {
        !self.is_success()
    }

    pub fn as_result(&self) -> (r: Result<(), Error>)
        ensures
            r == status_result(self.0),
    {
        if self.is_success() {
            Ok(())
        } else {
            Err(Error::PjError(*self))
        }
    }
}

/// The text that describes a status: pjlib's message `msg` for it,
/// then the number, as `msg: <msg> [status=<status>]`.
pub open spec fn spec_status_text(msg: Seq<char>, status: i32) -> Seq<char> {
    "msg: "@ + msg + " [status="@ + spec_decimal_signed(status as int) + "]"@
}

/// Writes the text that describes a status, given pjlib's message for it.
pub fn status_text(msg: &str, status: i32) -> (r: String)
    ensures
        r@ == spec_status_text(msg@, status),
{
    let mut s = "msg: ".to_owned();
    s.append(msg);
    s.append(" [status=");
    s.append(decimal_signed(status as i64).as_str());
    s.append("]");
    s
}

/// A status read back from its `PjStatus` gives the same outcome as the
/// number itself: `PjStatus::new(s).as_result()` and
/// `PjStatus::result_for_status(s)` agree, and a status is an error exactly
/// when it is not a success.
pub proof fn lemma_status_outcome(status: i32)
    ensures
        status_result(PjStatus(status).0) == status_result(status),
        status_result(status) is Ok <==> status == PJ_SUCCESS,
        status_result(status) is Err <==> status != PJ_SUCCESS,
{
}

} // verus!
