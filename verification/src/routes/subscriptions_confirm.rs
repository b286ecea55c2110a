//! The confirmation route's request parameters and outcome.

use vstd::prelude::*;

verus! {

use crate::authentication::STATUS_OK;

/// Query parameters of the confirmation endpoint.
pub struct Parameters {
    pub subscription_token: String,
}

/// The confirmation flow itself is outside this core: the endpoint
/// acknowledges every request.
pub fn confirm(_parameters: &Parameters) -> (status: u16)
    ensures
        status == STATUS_OK,
{
    STATUS_OK
}

} // verus!
