use testudo_raas::boundary::{
    decode_order, decode_portfolio, decode_request, InternalOrder, InternalPortfolio,
};
use testudo_raas::risk::{RiskError, StatusCode};
use testudo_raas::service::RaasRiskService;

fn build_portfolio_bytes(balance: f64, win_rate: f64, avg_win: f64, avg_loss: f64) -> Vec<u8> {
    let mut buf = Vec::with_capacity(32);
    buf.extend_from_slice(&balance.to_le_bytes());
    buf.extend_from_slice(&win_rate.to_le_bytes());
    buf.extend_from_slice(&avg_win.to_le_bytes());
    buf.extend_from_slice(&avg_loss.to_le_bytes());
    buf
}

fn build_order_bytes(entry_price: f64, stop_price: f64) -> Vec<u8> {
    let mut buf = Vec::with_capacity(16);
    buf.extend_from_slice(&entry_price.to_le_bytes());
    buf.extend_from_slice(&stop_price.to_le_bytes());
    buf
}

#[test]
fn portfolio_words_decode() {
    let bytes = build_portfolio_bytes(10000.0, 0.55, 1.5, 1.0);
    let portfolio = decode_portfolio(&bytes).unwrap();
    assert_eq!(
        portfolio,
        InternalPortfolio {
            balance: 10000.0f64.to_bits(),
            win_rate: 0.55f64.to_bits(),
            avg_win: 1.5f64.to_bits(),
            avg_loss: 1.0f64.to_bits(),
        }
    );
    assert_eq!(f64::from_bits(portfolio.balance), 10000.0);
}

#[test]
fn portfolio_of_wrong_length_is_refused() {
    assert_eq!(decode_portfolio(&[0xDE, 0xAD, 0xBE, 0xEF]), Err(RiskError::PortfolioDecodeError));
    assert_eq!(decode_portfolio(&[]), Err(RiskError::PortfolioDecodeError));
    let mut long = build_portfolio_bytes(1.0, 0.5, 1.0, 1.0);
    long.push(0);
    assert_eq!(decode_portfolio(&long), Err(RiskError::PortfolioDecodeError));
    let short = &long[..31];
    assert_eq!(decode_portfolio(short), Err(RiskError::PortfolioDecodeError));
}

#[test]
fn order_words_decode() {
    let bytes = build_order_bytes(50000.0, 49000.0);
    let order = decode_order(&bytes).unwrap();
    assert_eq!(
        order,
        InternalOrder {
            entry_price: 50000.0f64.to_bits(),
            stop_price: 49000.0f64.to_bits(),
            asset_volatility: 0,
        }
    );
    assert_eq!(decode_order(&bytes[..15]), Err(RiskError::OrderDecodeError));
    assert_eq!(decode_order(&build_portfolio_bytes(1.0, 1.0, 1.0, 1.0)), Err(RiskError::OrderDecodeError));
}

#[test]
fn valid_request_decodes() {
    let (portfolio, order, id) = decode_request(
        "int-test-1".to_string(),
        &build_portfolio_bytes(10000.0, 0.55, 1.5, 1.0),
        &build_order_bytes(50000.0, 49000.0),
        1000.0f64.to_bits(),
    )
    .unwrap();
    assert_eq!(id, "int-test-1");
    assert_eq!(f64::from_bits(portfolio.win_rate), 0.55);
    assert_eq!(f64::from_bits(order.entry_price), 50000.0);
    assert_eq!(f64::from_bits(order.stop_price), 49000.0);
    assert_eq!(f64::from_bits(order.asset_volatility), 1000.0);
}

#[test]
fn empty_request_id_is_invalid_argument() {
    let err = decode_request(
        String::new(),
        &build_portfolio_bytes(10000.0, 0.55, 1.5, 1.0),
        &build_order_bytes(50000.0, 49000.0),
        1000.0f64.to_bits(),
    )
    .unwrap_err();
    assert_eq!(err, RiskError::RequestIdEmpty);
    assert_eq!(err.status_code(), StatusCode::InvalidArgument);
}

#[test]
fn empty_request_id_is_checked_before_the_payload() {
    let err = decode_request(String::new(), &[1, 2, 3], &[4], 0).unwrap_err();
    assert_eq!(err, RiskError::RequestIdEmpty);
}

#[test]
fn garbage_bytes_are_invalid_argument() {
    let err = decode_request(
        "test".to_string(),
        &[0xDE, 0xAD, 0xBE, 0xEF],
        &build_order_bytes(50000.0, 49000.0),
        1000.0f64.to_bits(),
    )
    .unwrap_err();
    assert_eq!(err, RiskError::PortfolioDecodeError);
    assert_eq!(err.status_code(), StatusCode::InvalidArgument);
}

#[test]
fn garbage_order_is_order_decode_error() {
    let err = decode_request(
        "test".to_string(),
        &build_portfolio_bytes(10000.0, 0.55, 1.5, 1.0),
        &[0xDE, 0xAD],
        1000.0f64.to_bits(),
    )
    .unwrap_err();
    assert_eq!(err, RiskError::OrderDecodeError);
    assert_eq!(err.status_code(), StatusCode::InvalidArgument);
}

#[test]
fn portfolio_is_checked_before_the_order() {
    let err = decode_request("test".to_string(), &[0], &[0], 0).unwrap_err();
    assert_eq!(err, RiskError::PortfolioDecodeError);
}

#[test]
fn service_default_builds() {
    let service = RaasRiskService::default();
    assert_eq!(format!("{:?}", service), "RaasRiskService");
}
