use vstd::prelude::*;

use crate::boundary::decoded_request;
use crate::risk::{
    is_positive_binary64, reason_for, rejection_text, status_code_of, RiskError, StatusCode,
};

verus! {

/// The risk service. It holds no state: every request is answered from the
/// request alone.
#[derive(Debug)]
pub struct RaasRiskService {}

impl Default for RaasRiskService {
    fn default() -> (service: Self)
        ensures
            service == (RaasRiskService {}),
    {
        RaasRiskService {}
    }
}

/// A request that cannot be decoded is answered as an invalid argument,
/// whichever of its fields is at fault: an empty id, portfolio state or
/// order details in an unknown format.
pub proof fn lemma_undecodable_request_is_invalid_argument(
    request_id: Seq<char>,
    portfolio_state: Seq<u8>,
    order_details: Seq<u8>,
    asset_volatility: u64,
)
    ensures
        decoded_request(request_id, portfolio_state, order_details, asset_volatility) matches Err(err)
            ==> status_code_of(err) == StatusCode::InvalidArgument,
{
}

/// A position is rejected exactly when its size is not greater than zero, and
/// the reason it carries is reported as a failed precondition; an approved
/// position carries no reason, and its rejection reason is sent as the empty
/// string.
pub proof fn lemma_rejection_is_failed_precondition(size: u64)
    ensures
        reason_for(is_positive_binary64(size)) is None <==> is_positive_binary64(size),
        reason_for(is_positive_binary64(size)) matches Some(err)
            ==> err == RiskError::RiskThresholdViolation
                && status_code_of(err) == StatusCode::FailedPrecondition,
        rejection_text(reason_for(is_positive_binary64(size))).len() == 0
            <==> is_positive_binary64(size),
{
    reveal_strlit("risk threshold violation: position size is zero");
}

} // verus!
