use vstd::prelude::*;

verus! {

/// Why a request was refused or a position was rejected.
#[derive(Debug, Clone, Copy, PartialEq, Eq, Structural)]
pub enum RiskError {
    /// The `request_id` field was empty.
    RequestIdEmpty,
    /// Balance is zero or negative: no capital to allocate.
    BalanceZero,
    /// Entry price is zero or negative: invalid market data.
    EntryPriceZero,
    /// Stop distance is zero: cannot calculate position size.
    StopDistanceZero,
    /// Asset volatility is zero or negative: cannot scale position.
    InvalidVolatility,
    /// Portfolio state bytes could not be decoded.
    PortfolioDecodeError,
    /// Order details bytes could not be decoded.
    OrderDecodeError,
    /// All sizing models produced zero: position rejected.
    RiskThresholdViolation,
}

/// The text that describes each error.
pub open spec fn message_text(err: RiskError) -> Seq<char> {
    match err {
        RiskError::RequestIdEmpty => "request_id must not be empty"@,
        RiskError::BalanceZero => "balance must be greater than zero"@,
        RiskError::EntryPriceZero => "entry_price must be greater than zero"@,
        RiskError::StopDistanceZero => "stop distance must be greater than zero"@,
        RiskError::InvalidVolatility => "volatility must be greater than zero"@,
        RiskError::PortfolioDecodeError => "failed to decode portfolio_state bytes"@,
        RiskError::OrderDecodeError => "failed to decode order_details bytes"@,
        RiskError::RiskThresholdViolation => "risk threshold violation: position size is zero"@,
    }
}

/// The gRPC status codes under which a risk error is reported.
#[derive(Debug, Clone, Copy, PartialEq, Eq, Structural)]
pub enum StatusCode {
    /// The request itself was malformed.
    InvalidArgument,
    /// The request was well formed, but the position it asks for is refused.
    FailedPrecondition,
}

/// Errors that blame the request: everything but a rejected position.
pub open spec fn is_input_error(err: RiskError) -> bool {
    err != RiskError::RiskThresholdViolation
}

/// The status code of each error: input errors are invalid arguments,
/// a rejected position is a failed precondition.
pub open spec fn status_code_of(err: RiskError) -> StatusCode {
    if is_input_error(err) {
        StatusCode::InvalidArgument
    } else {
        StatusCode::FailedPrecondition
    }
}

impl RiskError {
    /// The human-readable description of the error.
    pub fn message(&self) -> (text: &'static str)
        ensures
            text@ == message_text(*self),
            text@.len() > 0,
    {
        proof {
            reveal_strlit("request_id must not be empty");
            reveal_strlit("balance must be greater than zero");
            reveal_strlit("entry_price must be greater than zero");
            reveal_strlit("stop distance must be greater than zero");
            reveal_strlit("volatility must be greater than zero");
            reveal_strlit("failed to decode portfolio_state bytes");
            reveal_strlit("failed to decode order_details bytes");
            reveal_strlit("risk threshold violation: position size is zero");
        }
        match self {
            RiskError::RequestIdEmpty => "request_id must not be empty",
            RiskError::BalanceZero => "balance must be greater than zero",
            RiskError::EntryPriceZero => "entry_price must be greater than zero",
            RiskError::StopDistanceZero => "stop distance must be greater than zero",
            RiskError::InvalidVolatility => "volatility must be greater than zero",
            RiskError::PortfolioDecodeError => "failed to decode portfolio_state bytes",
            RiskError::OrderDecodeError => "failed to decode order_details bytes",
            RiskError::RiskThresholdViolation => "risk threshold violation: position size is zero",
        }
    }

    /// The gRPC status code under which this error is reported.
    pub fn status_code(&self) -> (code: StatusCode)
        ensures
            code == status_code_of(*self),
    {
        match self {
            RiskError::RiskThresholdViolation => StatusCode::FailedPrecondition,
            _ => StatusCode::InvalidArgument,
        }
    }
}

/// The word of IEEE 754 binary64 `+infinity`.
pub const POSITIVE_INFINITY_WORD: u64 = 0x7ff0_0000_0000_0000u64;

/// Whether the IEEE 754 binary64 value with bit pattern `word` is greater than zero.
///
/// Words with the sign bit clear order as their values do: `0` is `+0.0`,
/// `1` the smallest subnormal, `POSITIVE_INFINITY_WORD` is `+infinity`, and every
/// word above it is a NaN or has its sign bit set. So the values greater than
/// zero are exactly the words from `1` up to `POSITIVE_INFINITY_WORD`.
pub open spec fn is_positive_binary64(word: u64) -> bool {
    0 < word && word <= POSITIVE_INFINITY_WORD
}

/// The values greater than zero, read off the IEEE 754 binary64 fields: the
/// sign bit (bit 63) is clear, the value is not `+0.0` (all other bits zero),
/// and it is not a NaN (exponent bits 52..63 all set with a non-zero
/// fraction). Everything else is approved: the subnormals, every normal
/// number however small or large, and `+infinity`.
pub proof fn lemma_positive_is_ieee_positive(word: u64)
    ensures
        is_positive_binary64(word) == (word >> 63u64 == 0 && word != 0 && !((word >> 52u64) & 0x7ffu64
            == 0x7ffu64 && word & 0xf_ffff_ffff_ffffu64 != 0)),
{
    assert((0 < word && word <= 0x7ff0_0000_0000_0000u64) == (word >> 63u64 == 0 && word != 0
        && !((word >> 52u64) & 0x7ffu64 == 0x7ffu64 && word & 0xf_ffff_ffff_ffffu64 != 0)))
        by (bit_vector);
}

/// Approval is monotone in the value: among words with the sign bit clear,
/// which order as their values do, a larger word that is not a NaN is approved
/// whenever a smaller one is.
pub proof fn lemma_positive_is_monotone(smaller: u64, larger: u64)
    requires
        is_positive_binary64(smaller),
        smaller <= larger,
        larger >> 63u64 == 0,
        !((larger >> 52u64) & 0x7ffu64 == 0x7ffu64 && larger & 0xf_ffff_ffff_ffffu64 != 0),
    ensures
        is_positive_binary64(larger),
{
    lemma_positive_is_ieee_positive(smaller);
    lemma_positive_is_ieee_positive(larger);
}

/// The outcome of a risk evaluation. `N` is the number type of the size:
/// `f64` for callers that compute, `u64` IEEE 754 words inside this library.
pub struct RiskResult<N> {
    pub request_id: String,
    pub is_approved: bool,
    pub size: N,
    pub reason: Option<RiskError>,
}

/// The rejection reason that goes with an approval decision.
pub open spec fn reason_for(is_approved: bool) -> Option<RiskError> {
    if is_approved {
        None
    } else {
        Some(RiskError::RiskThresholdViolation)
    }
}

impl RiskResult<u64> {
    /// Builds the outcome for the final position size, given as the IEEE 754
    /// binary64 word of the size: the position is approved exactly when the
    /// size is greater than zero, and a rejected one carries
    /// `RiskThresholdViolation` as its reason.
    pub fn from_final_size(request_id: String, size: u64) -> (result: RiskResult<u64>)
        ensures
            result.request_id@ == request_id@,
            result.size == size,
            result.is_approved == is_positive_binary64(size),
            result.reason == reason_for(result.is_approved),
            result.is_approved == (size >> 63u64 == 0 && size != 0 && !((size >> 52u64) & 0x7ffu64
                == 0x7ffu64 && size & 0xf_ffff_ffff_ffffu64 != 0)),
            result.is_approved <==> result.reason is None,
            !result.is_approved ==> result.reason == Some(RiskError::RiskThresholdViolation),
    {
        proof {
            lemma_positive_is_ieee_positive(size);
        }
        let is_approved = 0 < size && size <= POSITIVE_INFINITY_WORD;
        let reason = if is_approved {
            None
        } else {
            Some(RiskError::RiskThresholdViolation)
        };
        RiskResult { request_id, is_approved, size, reason }
    }
}

/// The text sent back as the rejection reason: empty when there is none.
pub open spec fn rejection_text(reason: Option<RiskError>) -> Seq<char> {
    match reason {
        None => Seq::empty(),
        Some(err) => message_text(err),
    }
}

/// The rejection reason as it is sent in a response: the error's message,
/// or the empty string when the position was approved.
pub fn rejection_reason(reason: Option<RiskError>) -> (text: &'static str)
    ensures
        text@ == rejection_text(reason),
        text@.len() == 0 <==> reason is None,
{
    proof {
        reveal_strlit("");
    }
    match reason {
        None => "",
        Some(err) => err.message(),
    }
}

} // verus!
