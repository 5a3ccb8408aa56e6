use vstd::prelude::*;

verus! {

/// The status the native library returns on success.
pub const FIDO_OK: i32 = 0;

/// The flag that asks the native library to log its traffic.
pub const FIDO_DEBUG: i32 = 1;

/// A failed native call, holding the status code it returned.
///
/// No further classification is made: callers that need to tell one failure
/// from another match on `code()`.
#[derive(Clone, Copy, Debug, PartialEq, Eq, Structural)]
pub struct FidoError(i32);

impl View for FidoError {
    type V = i32;

    closed spec fn view(&self) -> i32 {
        self.0
    }
}

impl FidoError {
    /// The native status code; never `FIDO_OK`.
    pub fn code(&self) -> (r: i32)
        ensures
            r == self@,
    {
        self.0
    }
}

/// The error of a native call that returned `status`.
pub(crate) fn failed(status: i32) -> (r: FidoError)
    requires
        status != FIDO_OK,
    ensures
        r@ == status,
{
    FidoError(status)
}

/// Turns a native status into `Ok` on `FIDO_OK` and into an error holding
/// the status otherwise.
pub fn check_status(status: i32) -> (r: Result<(), FidoError>)
    ensures
        r is Ok <==> status == FIDO_OK,
        r matches Err(e) ==> e@ == status,
{
    if status == FIDO_OK {
        Ok(())
    } else {
        Err(FidoError(status))
    }
}

/// Like `check_status`, handing `value` on when the call succeeded.
pub fn check_status_with<T>(status: i32, value: T) -> (r: Result<T, FidoError>)
    ensures
        r is Ok <==> status == FIDO_OK,
        r matches Ok(v) ==> v == value,
        r matches Err(e) ==> e@ == status,
{
    if status == FIDO_OK {
        Ok(value)
    } else {
        Err(FidoError(status))
    }
}

} // verus!
