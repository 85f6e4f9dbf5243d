use vstd::prelude::*;
use vstd::bytes::{
    lemma_auto_spec_u64_to_from_le_bytes, spec_u64_from_le_bytes, spec_u64_to_le_bytes,
    u64_from_le_bytes,
};

use crate::risk::RiskError;

verus! {

/// The account whose capital a position is sized against. `N` is the number
/// type: `u64` IEEE 754 binary64 words as decoded from the wire, `f64` for the
/// sizing models.
#[derive(Debug, Clone, PartialEq)]
pub struct InternalPortfolio<N> {
    pub balance: N,
    pub win_rate: N,
    pub avg_win: N,
    pub avg_loss: N,
}

/// A proposed trade, with the same choice of number type as `InternalPortfolio`.
#[derive(Debug, Clone, PartialEq)]
pub struct InternalOrder<N> {
    pub entry_price: N,
    pub stop_price: N,
    pub asset_volatility: N,
}

/// Length in bytes of an encoded portfolio: four little-endian binary64 words
/// (balance, win rate, average win, average loss).
pub const PORTFOLIO_LEN: usize = 32;

/// Length in bytes of encoded order details: two little-endian binary64 words
/// (entry price, stop price).
pub const ORDER_LEN: usize = 16;

/// The `index`-th little-endian 8-byte word of `bytes`.
pub open spec fn word_at(bytes: Seq<u8>, index: int) -> u64 {
    spec_u64_from_le_bytes(bytes.subrange(8 * index, 8 * index + 8))
}

/// The portfolio that a well-formed encoding stands for.
pub open spec fn portfolio_of(bytes: Seq<u8>) -> InternalPortfolio<u64> {
    InternalPortfolio {
        balance: word_at(bytes, 0),
        win_rate: word_at(bytes, 1),
        avg_win: word_at(bytes, 2),
        avg_loss: word_at(bytes, 3),
    }
}

/// The order that well-formed order details stand for, with the given volatility.
pub open spec fn order_of(bytes: Seq<u8>, asset_volatility: u64) -> InternalOrder<u64> {
    InternalOrder {
        entry_price: word_at(bytes, 0),
        stop_price: word_at(bytes, 1),
        asset_volatility,
    }
}

/// The result of decoding portfolio state: the encoded portfolio when the
/// bytes have exactly the expected length, `PortfolioDecodeError` otherwise.
pub open spec fn decoded_portfolio(bytes: Seq<u8>) -> Result<InternalPortfolio<u64>, RiskError> {
    if bytes.len() == PORTFOLIO_LEN {
        Ok(portfolio_of(bytes))
    } else {
        Err(RiskError::PortfolioDecodeError)
    }
}

/// The result of decoding order details; the volatility is not part of them
/// and is left at the word of `+0.0`.
pub open spec fn decoded_order(bytes: Seq<u8>) -> Result<InternalOrder<u64>, RiskError> {
    if bytes.len() == ORDER_LEN {
        Ok(order_of(bytes, 0))
    } else {
        Err(RiskError::OrderDecodeError)
    }
}

fn read_word(bytes: &[u8], index: usize) -> (word: u64)
    requires
        index < 4,
        8 * index + 8 <= bytes@.len(),
    ensures
        word == word_at(bytes@, index as int),
{
    let start = 8 * index;
    u64_from_le_bytes(&bytes[start..start + 8])
}

/// Decodes portfolio state. Anything but exactly `PORTFOLIO_LEN` bytes is
/// refused rather than padded or truncated.
pub fn decode_portfolio(bytes: &[u8]) -> (result: Result<InternalPortfolio<u64>, RiskError>)
    ensures
        result == decoded_portfolio(bytes@),
        result is Ok <==> bytes@.len() == 32,
        bytes@.len() != 32 ==> result == Err::<InternalPortfolio<u64>, RiskError>(
            RiskError::PortfolioDecodeError,
        ),
        result matches Ok(p) ==> {
            &&& p.balance == spec_u64_from_le_bytes(bytes@.subrange(0, 8))
            &&& p.win_rate == spec_u64_from_le_bytes(bytes@.subrange(8, 16))
            &&& p.avg_win == spec_u64_from_le_bytes(bytes@.subrange(16, 24))
            &&& p.avg_loss == spec_u64_from_le_bytes(bytes@.subrange(24, 32))
        },
{
    if bytes.len() != PORTFOLIO_LEN {
        return Err(RiskError::PortfolioDecodeError);
    }
    Ok(InternalPortfolio {
        balance: read_word(bytes, 0),
        win_rate: read_word(bytes, 1),
        avg_win: read_word(bytes, 2),
        avg_loss: read_word(bytes, 3),
    })
}

/// Decodes order details. Anything but exactly `ORDER_LEN` bytes is refused.
pub fn decode_order(bytes: &[u8]) -> (result: Result<InternalOrder<u64>, RiskError>)
    ensures
        result == decoded_order(bytes@),
        result is Ok <==> bytes@.len() == 16,
        bytes@.len() != 16 ==> result == Err::<InternalOrder<u64>, RiskError>(
            RiskError::OrderDecodeError,
        ),
        result matches Ok(o) ==> {
            &&& o.entry_price == spec_u64_from_le_bytes(bytes@.subrange(0, 8))
            &&& o.stop_price == spec_u64_from_le_bytes(bytes@.subrange(8, 16))
            &&& o.asset_volatility == 0
        },
{
    if bytes.len() != ORDER_LEN {
        return Err(RiskError::OrderDecodeError);
    }
    Ok(InternalOrder {
        entry_price: read_word(bytes, 0),
        stop_price: read_word(bytes, 1),
        asset_volatility: 0,
    })
}

/// What decoding a request gives: the request id is checked first, then the
/// portfolio state, then the order details; the volatility that travels beside
/// the order details is set on the order.
pub open spec fn decoded_request(
    request_id: Seq<char>,
    portfolio_state: Seq<u8>,
    order_details: Seq<u8>,
    asset_volatility: u64,
) -> Result<(InternalPortfolio<u64>, InternalOrder<u64>), RiskError> {
    if request_id.len() == 0 {
        Err(RiskError::RequestIdEmpty)
    } else if portfolio_state.len() != PORTFOLIO_LEN {
        Err(RiskError::PortfolioDecodeError)
    } else if order_details.len() != ORDER_LEN {
        Err(RiskError::OrderDecodeError)
    } else {
        Ok((portfolio_of(portfolio_state), order_of(order_details, asset_volatility)))
    }
}

/// Maps a request's fields into the domain of the sizing models: the
/// portfolio, the order, and the request id, which is handed back unchanged.
pub fn decode_request(
    request_id: String,
    portfolio_state: &[u8],
    order_details: &[u8],
    asset_volatility: u64,
) -> (result: Result<(InternalPortfolio<u64>, InternalOrder<u64>, String), RiskError>)
    ensures
        match (result, decoded_request(request_id@, portfolio_state@, order_details@, asset_volatility)) {
            (Ok((portfolio, order, id)), Ok((p, o))) => portfolio == p && order == o && id@ == request_id@,
            (Err(e), Err(f)) => e == f,
            _ => false,
        },
        result is Ok <==> (request_id@.len() > 0 && portfolio_state@.len() == 32
            && order_details@.len() == 16),
        request_id@.len() == 0 ==> result matches Err(RiskError::RequestIdEmpty),
        request_id@.len() > 0 && portfolio_state@.len() != 32
            ==> result matches Err(RiskError::PortfolioDecodeError),
        request_id@.len() > 0 && portfolio_state@.len() == 32 && order_details@.len() != 16
            ==> result matches Err(RiskError::OrderDecodeError),
        result matches Ok((p, o, id)) ==> {
            &&& Ok::<InternalPortfolio<u64>, RiskError>(p) == decoded_portfolio(portfolio_state@)
            &&& p.balance == spec_u64_from_le_bytes(portfolio_state@.subrange(0, 8))
            &&& p.win_rate == spec_u64_from_le_bytes(portfolio_state@.subrange(8, 16))
            &&& p.avg_win == spec_u64_from_le_bytes(portfolio_state@.subrange(16, 24))
            &&& p.avg_loss == spec_u64_from_le_bytes(portfolio_state@.subrange(24, 32))
            &&& o.entry_price == spec_u64_from_le_bytes(order_details@.subrange(0, 8))
            &&& o.stop_price == spec_u64_from_le_bytes(order_details@.subrange(8, 16))
            &&& o.asset_volatility == asset_volatility
            &&& id@ == request_id@
        },
{
    if request_id.as_str().is_empty() {
        return Err(RiskError::RequestIdEmpty);
    }
    let portfolio = match decode_portfolio(portfolio_state) {
        Ok(p) => p,
        Err(e) => return Err(e),
    };
    let mut order = match decode_order(order_details) {
        Ok(o) => o,
        Err(e) => return Err(e),
    };
    order.asset_volatility = asset_volatility;
    Ok((portfolio, order, request_id))
}

/// The encoding of a portfolio that clients send: its four words, each as
/// eight little-endian bytes, in field order.
pub open spec fn encoded_portfolio(p: InternalPortfolio<u64>) -> Seq<u8> {
    spec_u64_to_le_bytes(p.balance) + spec_u64_to_le_bytes(p.win_rate)
        + spec_u64_to_le_bytes(p.avg_win) + spec_u64_to_le_bytes(p.avg_loss)
}

/// The encoding of order details that clients send: entry price, then stop
/// price, each as eight little-endian bytes.
pub open spec fn encoded_order(o: InternalOrder<u64>) -> Seq<u8> {
    spec_u64_to_le_bytes(o.entry_price) + spec_u64_to_le_bytes(o.stop_price)
}

/// Decoding what a client encoded gives back the portfolio it encoded.
pub proof fn lemma_portfolio_round_trip(p: InternalPortfolio<u64>)
    ensures
        decoded_portfolio(encoded_portfolio(p)) == Ok::<InternalPortfolio<u64>, RiskError>(p),
{
    lemma_auto_spec_u64_to_from_le_bytes();
    let bytes = encoded_portfolio(p);
    assert(bytes.len() == PORTFOLIO_LEN);
    assert(bytes.subrange(0, 8) =~= spec_u64_to_le_bytes(p.balance));
    assert(bytes.subrange(8, 16) =~= spec_u64_to_le_bytes(p.win_rate));
    assert(bytes.subrange(16, 24) =~= spec_u64_to_le_bytes(p.avg_win));
    assert(bytes.subrange(24, 32) =~= spec_u64_to_le_bytes(p.avg_loss));
}

/// Decoding what a client encoded gives back its entry and stop prices; the
/// volatility does not travel in the order details.
pub proof fn lemma_order_round_trip(o: InternalOrder<u64>)
    ensures
        decoded_order(encoded_order(o)) == Ok::<InternalOrder<u64>, RiskError>(
            InternalOrder { asset_volatility: 0, ..o },
        ),
{
    lemma_auto_spec_u64_to_from_le_bytes();
    let bytes = encoded_order(o);
    assert(bytes.len() == ORDER_LEN);
    assert(bytes.subrange(0, 8) =~= spec_u64_to_le_bytes(o.entry_price));
    assert(bytes.subrange(8, 16) =~= spec_u64_to_le_bytes(o.stop_price));
}

/// A request with an id, whose payloads are what a client encoded, decodes
/// to the portfolio and order the client meant, volatility included.
pub proof fn lemma_request_round_trip(
    request_id: Seq<char>,
    portfolio: InternalPortfolio<u64>,
    order: InternalOrder<u64>,
)
    requires
        request_id.len() > 0,
    ensures
        decoded_request(
            request_id,
            encoded_portfolio(portfolio),
            encoded_order(order),
            order.asset_volatility,
        ) == Ok::<(InternalPortfolio<u64>, InternalOrder<u64>), RiskError>((portfolio, order)),
{
    lemma_portfolio_round_trip(portfolio);
    lemma_order_round_trip(order);
}

/// Portfolio state is accepted in one format only: exactly 32 bytes. Every
/// other length, shorter or longer, whole words or not, is refused as a
/// portfolio decode error, never truncated or padded; and an accepted
/// portfolio holds, field by field, the little-endian words of the payload.
pub proof fn lemma_portfolio_format_is_exact(bytes: Seq<u8>)
    ensures
        decoded_portfolio(bytes) is Ok <==> bytes.len() == 32,
        bytes.len() != 32 ==> decoded_portfolio(bytes) == Err::<InternalPortfolio<u64>, RiskError>(
            RiskError::PortfolioDecodeError,
        ),
        decoded_portfolio(bytes) matches Ok(p) ==> {
            &&& p.balance == spec_u64_from_le_bytes(bytes.subrange(0, 8))
            &&& p.win_rate == spec_u64_from_le_bytes(bytes.subrange(8, 16))
            &&& p.avg_win == spec_u64_from_le_bytes(bytes.subrange(16, 24))
            &&& p.avg_loss == spec_u64_from_le_bytes(bytes.subrange(24, 32))
        },
{
}

/// Order details are accepted in one format only: exactly 16 bytes. A
/// payload with an extra word, or any other length, is refused as an order
/// decode error; an accepted order holds the payload's two words.
pub proof fn lemma_order_format_is_exact(bytes: Seq<u8>)
    ensures
        decoded_order(bytes) is Ok <==> bytes.len() == 16,
        bytes.len() != 16 ==> decoded_order(bytes) == Err::<InternalOrder<u64>, RiskError>(
            RiskError::OrderDecodeError,
        ),
        decoded_order(bytes) matches Ok(o) ==> {
            &&& o.entry_price == spec_u64_from_le_bytes(bytes.subrange(0, 8))
            &&& o.stop_price == spec_u64_from_le_bytes(bytes.subrange(8, 16))
        },
{
}

/// A request is accepted exactly when its id is non-empty and both payloads
/// have their exact lengths; otherwise it is refused, with the first fault
/// found in the order id, portfolio, order. What an accepted request decodes
/// to is what decoding each payload on its own gives.
pub proof fn lemma_request_format_is_exact(
    request_id: Seq<char>,
    portfolio_state: Seq<u8>,
    order_details: Seq<u8>,
    asset_volatility: u64,
)
    ensures
        decoded_request(request_id, portfolio_state, order_details, asset_volatility) is Ok
            <==> (request_id.len() > 0 && portfolio_state.len() == 32 && order_details.len() == 16),
        request_id.len() == 0 ==> decoded_request(
            request_id,
            portfolio_state,
            order_details,
            asset_volatility,
        ) matches Err(RiskError::RequestIdEmpty),
        request_id.len() > 0 && portfolio_state.len() != 32 ==> decoded_request(
            request_id,
            portfolio_state,
            order_details,
            asset_volatility,
        ) matches Err(RiskError::PortfolioDecodeError),
        request_id.len() > 0 && portfolio_state.len() == 32 && order_details.len() != 16
            ==> decoded_request(
            request_id,
            portfolio_state,
            order_details,
            asset_volatility,
        ) matches Err(RiskError::OrderDecodeError),
        decoded_request(request_id, portfolio_state, order_details, asset_volatility) matches Ok(
            (p, o),
        ) ==> {
            &&& decoded_portfolio(portfolio_state) == Ok::<InternalPortfolio<u64>, RiskError>(p)
            &&& decoded_order(order_details) == Ok::<InternalOrder<u64>, RiskError>(
                InternalOrder { asset_volatility: 0, ..o },
            )
            &&& o.asset_volatility == asset_volatility
        },
{
}

} // verus!
