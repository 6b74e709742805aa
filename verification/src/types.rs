//! The shared data model: exchange identities, order vocabulary, normalized
//! response entities, the error taxonomy, and the description of an HTTP
//! request that a transport outside the library performs.

use vstd::prelude::*;

verus! {

use crate::amount::Amount;
use vstd::string::StringExecFns;

/// The closed set of supported exchanges.
#[derive(Clone, Copy, Debug, PartialEq, Eq, Structural)]
pub enum Exchanges {
    HUOBI,
    BINANCE,
    OKEX,
}

impl Exchanges {
    /// The display name of the exchange.
    pub fn label(&self) -> (r: &'static str)
        ensures
            r@ == self.spec_label(),
    {
        match self {
            Exchanges::HUOBI => "HUOBI",
            Exchanges::BINANCE => "BINANCE",
            Exchanges::OKEX => "OKEX",
        }
    }

    /// The display name of the exchange.
    pub open spec fn spec_label(self) -> Seq<char> {
        match self {
            Exchanges::HUOBI => "HUOBI"@,
            Exchanges::BINANCE => "BINANCE"@,
            Exchanges::OKEX => "OKEX"@,
        }
    }
}

/// Whether a market is open for trading.
#[derive(Clone, Copy, Debug, PartialEq, Eq, Structural)]
pub enum MarketStatus {
    TRADING,
    CLOSED,
}

/// The side of an order.
#[derive(Clone, Copy, Debug, PartialEq, Eq, Structural)]
pub enum OrderSide {
    BUY,
    SELL,
}

impl OrderSide {
    /// The wire name of the side, as Binance spells it.
    pub fn label(&self) -> (r: &'static str)
        ensures
            r@ == self.spec_label(),
    {
        match self {
            OrderSide::BUY => "BUY",
            OrderSide::SELL => "SELL",
        }
    }

    /// The wire name of the side.
    pub open spec fn spec_label(self) -> Seq<char> {
        match self {
            OrderSide::BUY => "BUY"@,
            OrderSide::SELL => "SELL"@,
        }
    }
}

/// The lifecycle of an order.  `FILLED`, `CANCELED`, `REJECTED` and
/// `EXPIRED` are terminal.
#[derive(Clone, Copy, Debug, PartialEq, Eq, Structural)]
pub enum OrderStatus {
    NEW,
    PARTIALLYFILLED,
    FILLED,
    CANCELED,
    REJECTED,
    EXPIRED,
}

/// The kind of account an exchange holds for a profile.
#[derive(Clone, Copy, Debug, PartialEq, Eq, Structural)]
pub enum AccountType {
    USDSFUTURE,
    SPOT,
}

/// The gateway's logical operations, one per capability.
#[derive(Clone, Copy, Debug, PartialEq, Eq, Structural)]
pub enum Operation {
    Depth,
    AccountInfo,
    OrderInfo,
    CreateOrder,
    CancelOrder,
    CancelAllOrder,
    LoanInfo,
    Withdraw,
}

/// A price level of the book: a price and the volume resting at it.
#[derive(Clone, Copy, Debug, PartialEq, Eq, Structural)]
pub struct PriceLevel {
    pub price: Amount,
    pub volume: Amount,
}

/// The top of the book: asks ascending, bids descending by price.
#[derive(Clone, Debug)]
pub struct Tick {
    pub asks: Vec<PriceLevel>,
    pub bids: Vec<PriceLevel>,
}

/// A depth snapshot with a best-effort timestamp (zero when the response
/// carries none).
#[derive(Clone, Debug)]
pub struct DepthInfo {
    pub tick: Tick,
    pub ts: i64,
}

/// Available and frozen balances for the traded symbol and its quote
/// currency.
#[derive(Clone, Copy, Debug, PartialEq, Eq, Structural)]
pub struct AccountInfo {
    pub available_symbol: Amount,
    pub frozen_symbol: Amount,
    pub available_currency: Amount,
    pub frozen_currency: Amount,
}

/// A normalized order record.
#[derive(Clone, Debug)]
pub struct OrderInfo {
    pub id: String,
    pub volume: Amount,
    pub price: Amount,
    pub created_at: u64,
    pub status: OrderStatus,
    pub trade_avg_price: Amount,
    pub side: OrderSide,
    pub trade_volume: Amount,
}

/// Empty entities the shared model reserves for order lifecycle events.
#[derive(Clone, Copy, Debug)]
pub struct OpenInfo {}

#[derive(Clone, Copy, Debug)]
pub struct CloseInfo {}

#[derive(Clone, Copy, Debug)]
pub struct CancelInfo {}

/// Static facts about a market.
#[derive(Clone, Debug)]
pub struct MarketInfo {
    pub pair: String,
    pub status: MarketStatus,
    pub price_tick: Amount,
    pub contract_size: Amount,
}

/// Margin-loan availability for a symbol.
#[derive(Clone, Debug)]
pub struct LoanInfo {
    pub symbol: String,
    pub min_volume: Amount,
}

/// The error taxonomy of the gateway.  Every operation returns a result;
/// nothing aborts the process.
#[derive(Clone, Debug)]
pub enum GateError {
    /// The transport could not complete the round trip.
    TransportError(String),
    /// The payload does not have the expected structure.
    UnexpectedResponseShape(String),
    /// A well-formed envelope in which the exchange reported failure; the
    /// raw payload is kept for diagnosis.
    ExchangeRejected { exchange: Exchanges, payload: String },
    /// The exchange has no implementation of the operation.
    NotImplemented { exchange: Exchanges, operation: Operation },
    /// An order status or side string outside the known vocabulary.
    UnknownEnumValue(String),
}

impl GateError {
    /// An exchange-reported failure carrying the raw payload.
    pub fn rejected(ex: Exchanges, raw: &str) -> (e: GateError)
        ensures
            e matches GateError::ExchangeRejected { exchange, payload } && exchange == ex
                && payload@ == raw@,
    {
        GateError::ExchangeRejected { exchange: ex, payload: String::from_str(raw) }
    }

    /// A payload without the expected structure.
    pub fn shape(raw: &str) -> (e: GateError)
        ensures
            e matches GateError::UnexpectedResponseShape(p) && p@ == raw@,
    {
        GateError::UnexpectedResponseShape(String::from_str(raw))
    }

    /// An order status or side outside the known vocabulary.
    pub fn unknown(s: &str) -> (e: GateError)
        ensures
            e matches GateError::UnknownEnumValue(p) && p@ == s@,
    {
        GateError::UnknownEnumValue(String::from_str(s))
    }
}

/// An HTTP method used by the gateway.
#[derive(Clone, Copy, Debug, PartialEq, Eq, Structural)]
pub enum HttpMethod {
    GET,
    POST,
    DELETE,
}

impl HttpMethod {
    /// The method's wire name.
    pub fn label(&self) -> (r: &'static str)
        ensures
            r@ == self.spec_label(),
    {
        match self {
            HttpMethod::GET => "GET",
            HttpMethod::POST => "POST",
            HttpMethod::DELETE => "DELETE",
        }
    }

    /// The method's wire name.
    pub open spec fn spec_label(self) -> Seq<char> {
        match self {
            HttpMethod::GET => "GET"@,
            HttpMethod::POST => "POST"@,
            HttpMethod::DELETE => "DELETE"@,
        }
    }
}

/// A fully-prepared request: everything the transport outside the library
/// needs to perform the call, with the signature already in place.
#[derive(Clone, Debug)]
pub struct HttpRequest {
    pub method: HttpMethod,
    pub protocol: String,
    pub host: String,
    pub path: String,
    /// The query string, without the leading `?`; empty when there is none.
    pub query: String,
    /// The request body; empty when there is none.
    pub body: String,
    /// Header name/value pairs, mostly the exchange's auth headers.
    pub headers: Vec<(String, String)>,
}

impl HttpRequest {
    /// The URL the request targets.
    pub open spec fn spec_url(self) -> Seq<char> {
        if self.query@.len() == 0 {
            self.protocol@ + "://"@ + self.host@ + self.path@
        } else {
            self.protocol@ + "://"@ + self.host@ + self.path@ + "?"@ + self.query@
        }
    }

    /// Assemble the URL: `protocol://host path` with the query appended
    /// after `?` when present.
    pub fn url(&self) -> (r: String)
        ensures
            r@ == self.spec_url(),
    {
        let mut r = self.protocol.clone();
        r.append("://");
        r.append(self.host.as_str());
        r.append(self.path.as_str());
        if !self.query.as_str().is_empty() {
            r.append("?");
            r.append(self.query.as_str());
        }
        r
    }
}

} // verus!
