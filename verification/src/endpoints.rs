//! Endpoint URL and canonical-path construction.
//!
//! The canonical path of an authenticated endpoint is load-bearing: it is
//! the first component of the signing input, so it must match the exchange's
//! expectation byte for byte. Every builder here carries an exact string
//! contract.

use crate::book::BookPrecision;
use crate::candles::{CandlesSection, CandlesTimeFrame};
use crate::num::{dec_chars, u128_to_decimal};
use vstd::prelude::*;

verus! {

/// An endpoint of the public (unauthenticated) API.
pub enum PublicEndpoint {
    Status,
    Tickers { symbols: Vec<String> },
    Ticker { symbol: String },
    TickersHistory { symbols: Vec<String> },
    Trades { symbol: String },
    Book { symbol: String, precision: BookPrecision },
    Candles {
        timeframe: CandlesTimeFrame,
        symbol: String,
        section: CandlesSection,
        funding_period: Option<String>,
    },
}

/// Comma-joined symbol list, as ticker queries carry it.
pub open spec fn spec_join_commas(parts: Seq<Seq<char>>) -> Seq<char>
    decreases parts.len(),
{
    if parts.len() == 0 {
        Seq::empty()
    } else if parts.len() == 1 {
        parts[0]
    } else {
        spec_join_commas(parts.drop_last()) + ","@ + parts.last()
    }
}

fn join_commas(parts: &Vec<String>) -> (r: String)
    ensures
        r@ == spec_join_commas(parts@.map_values(|s: String| s@)),
{
    let ghost views = parts@.map_values(|s: String| s@);
    let mut r = String::new();
    let mut i: usize = 0;
    while i < parts.len()
        invariant
            i <= parts@.len(),
            views == parts@.map_values(|s: String| s@),
            r@ == spec_join_commas(views.take(i as int)),
        decreases parts@.len() - i,
    {
        if i > 0 {
            r.append(",");
        }
        r.append(parts[i].as_str());
        proof {
            assert(views.take(i + 1).drop_last() =~= views.take(i as int));
            assert(views.take(i + 1).last() == views[i as int]);
            if i == 0 {
                assert(r@ =~= spec_join_commas(views.take(1)));
            }
        }
        i = i + 1;
    }
    proof {
        assert(views.take(parts@.len() as int) =~= views);
    }
    r
}

impl PublicEndpoint {
    /// The full request URL of the endpoint.
    pub open spec fn spec_url(self) -> Seq<char> {
        "https://api-pub.bitfinex.com/v2"@ + match self {
            PublicEndpoint::Status => "/platform/status"@,
            PublicEndpoint::Tickers { symbols } => "/tickers?symbols="@ + spec_join_commas(
                symbols@.map_values(|s: String| s@),
            ),
            PublicEndpoint::Ticker { symbol } => "/ticker/"@ + symbol@,
            PublicEndpoint::TickersHistory { symbols } => "/tickers/hist?symbols="@
                + spec_join_commas(symbols@.map_values(|s: String| s@)),
            PublicEndpoint::Trades { symbol } => "/ticker/"@ + symbol@ + "/hist"@,
            PublicEndpoint::Book { symbol, precision } => "/book/"@ + symbol@ + "/"@
                + precision.spec_str(),
            PublicEndpoint::Candles { timeframe, symbol, section, funding_period } => match funding_period {
                Some(period) => "/candles/trade:"@ + timeframe.spec_str() + ":"@ + symbol@ + ":"@
                    + period@ + "/"@ + section.spec_str(),
                None => "/candles/trade:"@ + timeframe.spec_str() + ":"@ + symbol@ + "/"@
                    + section.spec_str(),
            },
        }
    }

    pub fn to_string(&self) -> (r: String)
        ensures
            r@ == self.spec_url(),
    {
        let mut r = "https://api-pub.bitfinex.com/v2".to_owned();
        match self {
            PublicEndpoint::Status => {
                r.append("/platform/status");
            },
            PublicEndpoint::Tickers { symbols } => {
                r.append("/tickers?symbols=");
                r.append(join_commas(symbols).as_str());
            },
            PublicEndpoint::Ticker { symbol } => {
                r.append("/ticker/");
                r.append(symbol.as_str());
            },
            PublicEndpoint::TickersHistory { symbols } => {
                r.append("/tickers/hist?symbols=");
                r.append(join_commas(symbols).as_str());
            },
            PublicEndpoint::Trades { symbol } => {
                r.append("/ticker/");
                r.append(symbol.as_str());
                r.append("/hist");
            },
            PublicEndpoint::Book { symbol, precision } => {
                r.append("/book/");
                r.append(symbol.as_str());
                r.append("/");
                r.append(precision.to_string().as_str());
            },
            PublicEndpoint::Candles { timeframe, symbol, section, funding_period } => {
                r.append("/candles/trade:");
                r.append(timeframe.to_string().as_str());
                r.append(":");
                r.append(symbol.as_str());
                match funding_period {
                    Some(period) => {
                        r.append(":");
                        r.append(period.as_str());
                    },
                    None => (),
                }
                r.append("/");
                r.append(section.to_string().as_str());
            },
        }
        proof {
            assert(r@ =~= self.spec_url());
        }
        r
    }
}

/// An endpoint of the authenticated API.
pub enum AuthenticatedEndpoint {
    Wallets,
    RetrieveOrders,
    SubmitOrder,
    UpdateOrder,
    CancelOrder,
    OrdersHistory { symbol: Option<String> },
    OrderTrades { symbol: String, order_id: u64 },
    Trades { symbol: String },
    Ledgers { symbol: String },
    MarginInfo { key: MarginInfoKey },
    RetrievePositions,
    ClaimPosition,
    PositionsHistory,
    PositionsSnapshot,
    PositionsAudit,
    DerivativePositionCollateral,
    DerivativePositionCollateralLimits,
    UserInfo,
    Summary,
    FundingInfo { symbol: String },
    WalletTransfer,
}

impl AuthenticatedEndpoint {
    /// The canonical path: what stands after the host in the URL, and first
    /// in the signing input (prefixed there with `/api`).
    pub open spec fn spec_path(self) -> Seq<char> {
        match self {
            AuthenticatedEndpoint::Wallets => "/v2/auth/r/wallets"@,
            AuthenticatedEndpoint::RetrieveOrders => "/v2/auth/r/orders"@,
            AuthenticatedEndpoint::SubmitOrder => "/v2/auth/w/order/submit"@,
            AuthenticatedEndpoint::UpdateOrder => "/v2/auth/w/order/update"@,
            AuthenticatedEndpoint::CancelOrder => "/v2/auth/w/order/cancel"@,
            AuthenticatedEndpoint::OrdersHistory { symbol } => match symbol {
                Some(s) => "/v2/auth/r/orders/"@ + s@ + "/hist"@,
                None => "/v2/auth/r/orders/hist"@,
            },
            AuthenticatedEndpoint::OrderTrades { symbol, order_id } => "/v2/auth/r/order/"@
                + symbol@ + ":"@ + dec_chars(order_id as nat) + "/trades"@,
            AuthenticatedEndpoint::Trades { symbol } => "/v2/auth/r/trades/"@ + symbol@ + "/hist"@,
            AuthenticatedEndpoint::Ledgers { symbol } => "/v2/auth/r/ledgers/"@ + symbol@
                + "/hist"@,
            AuthenticatedEndpoint::MarginInfo { key } => "/v2/auth/r/info/margin/"@
                + key.spec_str(),
            AuthenticatedEndpoint::RetrievePositions => "/v2/auth/r/positions"@,
            AuthenticatedEndpoint::ClaimPosition => "/v2/auth/w/position/claim"@,
            AuthenticatedEndpoint::PositionsHistory => "/v2/auth/r/positions/hist"@,
            AuthenticatedEndpoint::PositionsSnapshot => "/v2/auth/r/positions/snap"@,
            AuthenticatedEndpoint::PositionsAudit => "/v2/auth/r/positions/audit"@,
            AuthenticatedEndpoint::DerivativePositionCollateral => "/v2/auth/r/deriv/collateral/set"@,
            AuthenticatedEndpoint::DerivativePositionCollateralLimits => "/v2/auth/calc/deriv/collateral/limits"@,
            AuthenticatedEndpoint::UserInfo => "/v2/auth/r/info/user"@,
            AuthenticatedEndpoint::Summary => "/v2/auth/r/summary"@,
            AuthenticatedEndpoint::FundingInfo { symbol } => "/v2/auth/r/info/funding/"@ + symbol@,
            AuthenticatedEndpoint::WalletTransfer => "/v2/auth/w/transfer"@,
        }
    }

    /// The canonical path of the endpoint: the URL with the host removed,
    /// ready to stand in the signing input.
    pub fn path(&self) -> (r: String)
        ensures
            r@ == self.spec_path(),
    {
        let mut r = String::new();
        match self {
            AuthenticatedEndpoint::Wallets => {
                r.append("/v2/auth/r/wallets");
            },
            AuthenticatedEndpoint::RetrieveOrders => {
                r.append("/v2/auth/r/orders");
            },
            AuthenticatedEndpoint::SubmitOrder => {
                r.append("/v2/auth/w/order/submit");
            },
            AuthenticatedEndpoint::UpdateOrder => {
                r.append("/v2/auth/w/order/update");
            },
            AuthenticatedEndpoint::CancelOrder => {
                r.append("/v2/auth/w/order/cancel");
            },
            AuthenticatedEndpoint::OrdersHistory { symbol } => {
                match symbol {
                    Some(s) => {
                        r.append("/v2/auth/r/orders/");
                        r.append(s.as_str());
                        r.append("/hist");
                    },
                    None => {
                        r.append("/v2/auth/r/orders/hist");
                    },
                }
            },
            AuthenticatedEndpoint::OrderTrades { symbol, order_id } => {
                r.append("/v2/auth/r/order/");
                r.append(symbol.as_str());
                r.append(":");
                r.append(u128_to_decimal(*order_id as u128).as_str());
                r.append("/trades");
            },
            AuthenticatedEndpoint::Trades { symbol } => {
                r.append("/v2/auth/r/trades/");
                r.append(symbol.as_str());
                r.append("/hist");
            },
            AuthenticatedEndpoint::Ledgers { symbol } => {
                r.append("/v2/auth/r/ledgers/");
                r.append(symbol.as_str());
                r.append("/hist");
            },
            AuthenticatedEndpoint::MarginInfo { key } => {
                r.append("/v2/auth/r/info/margin/");
                r.append(key.to_string().as_str());
            },
            AuthenticatedEndpoint::RetrievePositions => {
                r.append("/v2/auth/r/positions");
            },
            AuthenticatedEndpoint::ClaimPosition => {
                r.append("/v2/auth/w/position/claim");
            },
            AuthenticatedEndpoint::PositionsHistory => {
                r.append("/v2/auth/r/positions/hist");
            },
            AuthenticatedEndpoint::PositionsSnapshot => {
                r.append("/v2/auth/r/positions/snap");
            },
            AuthenticatedEndpoint::PositionsAudit => {
                r.append("/v2/auth/r/positions/audit");
            },
            AuthenticatedEndpoint::DerivativePositionCollateral => {
                r.append("/v2/auth/r/deriv/collateral/set");
            },
            AuthenticatedEndpoint::DerivativePositionCollateralLimits => {
                r.append("/v2/auth/calc/deriv/collateral/limits");
            },
            AuthenticatedEndpoint::UserInfo => {
                r.append("/v2/auth/r/info/user");
            },
            AuthenticatedEndpoint::Summary => {
                r.append("/v2/auth/r/summary");
            },
            AuthenticatedEndpoint::FundingInfo { symbol } => {
                r.append("/v2/auth/r/info/funding/");
                r.append(symbol.as_str());
            },
            AuthenticatedEndpoint::WalletTransfer => {
                r.append("/v2/auth/w/transfer");
            },
        }
        proof {
            assert(r@ =~= self.spec_path());
        }
        r
    }

    /// The full request URL: the host, then the canonical path.
    pub fn to_string(&self) -> (r: String)
        ensures
            r@ == "https://api.bitfinex.com"@ + self.spec_path(),
    {
        let mut r = "https://api.bitfinex.com".to_owned();
        r.append(self.path().as_str());
        r
    }
}

/// Which margin-information table is requested.
pub enum MarginInfoKey {
    Base,
    Symbol(String),
    SymAll,
}

impl MarginInfoKey {
    /// The wire name of the key.
    pub open spec fn spec_str(self) -> Seq<char> {
        match self {
            MarginInfoKey::Base => "base"@,
            MarginInfoKey::Symbol(s) => s@,
            MarginInfoKey::SymAll => "sym_all"@,
        }
    }

    pub fn to_string(&self) -> (r: String)
        ensures
            r@ == self.spec_str(),
    {
        match self {
            MarginInfoKey::Base => "base".to_owned(),
            MarginInfoKey::Symbol(s) => s.clone(),
            MarginInfoKey::SymAll => "sym_all".to_owned(),
        }
    }
}

} // verus!
