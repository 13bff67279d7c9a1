use bitfinex::book::BookPrecision;
use bitfinex::candles::{CandleHistoryParams, CandlesSection, CandlesTimeFrame};
use bitfinex::endpoints::{AuthenticatedEndpoint, MarginInfoKey, PublicEndpoint};

#[test]
fn public_status_url() {
    assert_eq!(
        PublicEndpoint::Status.to_string(),
        "https://api-pub.bitfinex.com/v2/platform/status"
    );
}

#[test]
fn public_tickers_url_joins_symbols_with_commas() {
    let e = PublicEndpoint::Tickers {
        symbols: vec!["tBTCUSD".to_string(), "tETHUSD".to_string(), "fUSD".to_string()],
    };
    assert_eq!(
        e.to_string(),
        "https://api-pub.bitfinex.com/v2/tickers?symbols=tBTCUSD,tETHUSD,fUSD"
    );
}

#[test]
fn public_ticker_and_trades_urls() {
    let t = PublicEndpoint::Ticker { symbol: "tBTCUSD".to_string() };
    assert_eq!(t.to_string(), "https://api-pub.bitfinex.com/v2/ticker/tBTCUSD");
    let h = PublicEndpoint::Trades { symbol: "tBTCUSD".to_string() };
    assert_eq!(h.to_string(), "https://api-pub.bitfinex.com/v2/ticker/tBTCUSD/hist");
}

#[test]
fn public_book_url_names_the_precision() {
    let e = PublicEndpoint::Book { symbol: "tBTCUSD".to_string(), precision: BookPrecision::P1 };
    assert_eq!(e.to_string(), "https://api-pub.bitfinex.com/v2/book/tBTCUSD/P1");
}

#[test]
fn public_candles_urls_with_and_without_period() {
    let plain = PublicEndpoint::Candles {
        timeframe: CandlesTimeFrame::FiveMinutes,
        symbol: "tBTCUSD".to_string(),
        section: CandlesSection::Hist,
        funding_period: None,
    };
    assert_eq!(
        plain.to_string(),
        "https://api-pub.bitfinex.com/v2/candles/trade:5m:tBTCUSD/hist"
    );
    let funding = PublicEndpoint::Candles {
        timeframe: CandlesTimeFrame::OneDay,
        symbol: "fUSD".to_string(),
        section: CandlesSection::Last,
        funding_period: Some("p30".to_string()),
    };
    assert_eq!(
        funding.to_string(),
        "https://api-pub.bitfinex.com/v2/candles/trade:1D:fUSD:p30/last"
    );
}

#[test]
fn authenticated_paths_are_wire_exact() {
    assert_eq!(AuthenticatedEndpoint::Wallets.path(), "/v2/auth/r/wallets");
    assert_eq!(AuthenticatedEndpoint::RetrieveOrders.path(), "/v2/auth/r/orders");
    assert_eq!(AuthenticatedEndpoint::SubmitOrder.path(), "/v2/auth/w/order/submit");
    assert_eq!(AuthenticatedEndpoint::UpdateOrder.path(), "/v2/auth/w/order/update");
    assert_eq!(AuthenticatedEndpoint::CancelOrder.path(), "/v2/auth/w/order/cancel");
    assert_eq!(
        AuthenticatedEndpoint::OrdersHistory { symbol: Some("tBTCUSD".to_string()) }.path(),
        "/v2/auth/r/orders/tBTCUSD/hist"
    );
    assert_eq!(
        AuthenticatedEndpoint::OrdersHistory { symbol: None }.path(),
        "/v2/auth/r/orders/hist"
    );
    assert_eq!(
        AuthenticatedEndpoint::OrderTrades { symbol: "tBTCUSD".to_string(), order_id: 976 }.path(),
        "/v2/auth/r/order/tBTCUSD:976/trades"
    );
    assert_eq!(
        AuthenticatedEndpoint::Trades { symbol: "tBTCUSD".to_string() }.path(),
        "/v2/auth/r/trades/tBTCUSD/hist"
    );
    assert_eq!(
        AuthenticatedEndpoint::Ledgers { symbol: "BTC".to_string() }.path(),
        "/v2/auth/r/ledgers/BTC/hist"
    );
    assert_eq!(
        AuthenticatedEndpoint::MarginInfo { key: MarginInfoKey::Base }.path(),
        "/v2/auth/r/info/margin/base"
    );
    assert_eq!(
        AuthenticatedEndpoint::MarginInfo { key: MarginInfoKey::Symbol("tBTCUSD".to_string()) }
            .path(),
        "/v2/auth/r/info/margin/tBTCUSD"
    );
    assert_eq!(
        AuthenticatedEndpoint::MarginInfo { key: MarginInfoKey::SymAll }.path(),
        "/v2/auth/r/info/margin/sym_all"
    );
    assert_eq!(AuthenticatedEndpoint::RetrievePositions.path(), "/v2/auth/r/positions");
    assert_eq!(AuthenticatedEndpoint::ClaimPosition.path(), "/v2/auth/w/position/claim");
    assert_eq!(AuthenticatedEndpoint::PositionsHistory.path(), "/v2/auth/r/positions/hist");
    assert_eq!(AuthenticatedEndpoint::PositionsSnapshot.path(), "/v2/auth/r/positions/snap");
    assert_eq!(AuthenticatedEndpoint::PositionsAudit.path(), "/v2/auth/r/positions/audit");
    assert_eq!(
        AuthenticatedEndpoint::DerivativePositionCollateral.path(),
        "/v2/auth/r/deriv/collateral/set"
    );
    assert_eq!(
        AuthenticatedEndpoint::DerivativePositionCollateralLimits.path(),
        "/v2/auth/calc/deriv/collateral/limits"
    );
    assert_eq!(AuthenticatedEndpoint::UserInfo.path(), "/v2/auth/r/info/user");
    assert_eq!(AuthenticatedEndpoint::Summary.path(), "/v2/auth/r/summary");
    assert_eq!(
        AuthenticatedEndpoint::FundingInfo { symbol: "fUSD".to_string() }.path(),
        "/v2/auth/r/info/funding/fUSD"
    );
    assert_eq!(AuthenticatedEndpoint::WalletTransfer.path(), "/v2/auth/w/transfer");
}

#[test]
fn authenticated_url_is_host_plus_path() {
    assert_eq!(
        AuthenticatedEndpoint::SubmitOrder.to_string(),
        "https://api.bitfinex.com/v2/auth/w/order/submit"
    );
}

#[test]
fn candle_params_default_and_query() {
    let p = CandleHistoryParams::new();
    assert_eq!(p.limit, Some(120));
    assert_eq!(p.start, None);
    assert_eq!(p.end, None);
    assert_eq!(p.sort, Some(false));
    assert_eq!(p.to_query(), "limit=120&start=&end=&sort=0");
}

#[test]
fn candle_params_query_prints_all_fields() {
    let p = CandleHistoryParams {
        limit: Some(500),
        start: Some(-10),
        end: Some(1640000000000),
        sort: Some(true),
    };
    assert_eq!(p.to_query(), "limit=500&start=-10&end=1640000000000&sort=1");
    let empty = CandleHistoryParams { limit: None, start: None, end: None, sort: None };
    assert_eq!(empty.to_query(), "limit=&start=&end=&sort=");
}

#[test]
fn timeframes_print_their_wire_names() {
    assert_eq!(CandlesTimeFrame::OneMinute.to_string(), "1m");
    assert_eq!(CandlesTimeFrame::FifteenMinutes.to_string(), "15m");
    assert_eq!(CandlesTimeFrame::TwelveHours.to_string(), "12h");
    assert_eq!(CandlesTimeFrame::OneWeek.to_string(), "7D");
    assert_eq!(CandlesTimeFrame::TwoWeeks.to_string(), "14D");
    assert_eq!(CandlesSection::Last.to_string(), "last");
    assert_eq!(CandlesSection::Hist.to_string(), "hist");
}

#[test]
fn book_precisions_print_their_wire_names() {
    assert_eq!(BookPrecision::P0.to_string(), "P0");
    assert_eq!(BookPrecision::P4.to_string(), "P4");
    assert_eq!(BookPrecision::R0.to_string(), "R0");
}
