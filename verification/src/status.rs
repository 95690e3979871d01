use vstd::prelude::*;

verus! {

/// An HTTP status code counts as success when it lies in `200..=299`.
pub open spec fn spec_is_success(code: u16) -> bool {
    200 <= code && code < 300
}

/// Whether an HTTP status code is a success code (`2xx`).
pub fn is_success_status(code: u16) -> (ok: bool)
    ensures
        ok == spec_is_success(code),
{
    200 <= code && code < 300
}

} // verus!
