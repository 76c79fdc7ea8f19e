use vstd::prelude::*;
use crate::WipeError;

verus! {

/// Hardware secure erase where the platform offers no way to issue it: always
/// refused as an unsupported operation.
pub fn perform_secure_erase(path: &str) -> (r: Result<(), WipeError>)
    ensures
        r is Err,
        r->Err_0 is UnsupportedOperation,
        r->Err_0->UnsupportedOperation_0@ == "Secure erase not supported on this platform"@,
{
    Err(WipeError::UnsupportedOperation(String::from_str("Secure erase not supported on this platform")))
}

} // verus!
