//! The Binance protocol: parameters are form-urlencoded in insertion order,
//! `recvWindow` and the server timestamp are appended, the signature is the
//! lowercase-hex HMAC-SHA256 of query-string-then-body-string, and the API
//! key travels in the `X-MBX-APIKEY` header.  Success is signaled by the
//! presence of the expected field; an error code or a missing field is a
//! failure.

use vstd::prelude::*;

verus! {

use vstd::string::{StringExecFns, StringSliceAdditionalSpecFns};
use crate::codec::{ascii_bytes, ascii_string, ascii_upper, bytes_of, hex_lower_of, str_bytes,
    to_ascii_upper};
use crate::amount::{Amount, amount_parsed, amount_render, amount_rendered};
use crate::config::BinanceConfig;
use crate::exchange::Exchange;
use crate::json::{JsonValue, spec_get, spec_as_arr, spec_as_str, spec_as_num, spec_as_bool,
    spec_find};
use crate::num::{is_digits, digits_val};
use crate::query::{Param, param, param_bytes, pview, query_encoded, lemma_query_encoded_ascii};
use crate::sign::{hmac_sha256_of, hmac_sha256_hex};
use crate::types::{AccountInfo, DepthInfo, GateError, HttpMethod, HttpRequest, LoanInfo,
    OrderInfo, OrderSide, OrderStatus, PriceLevel, Exchanges, Tick};

/// The fixed `recvWindow=5000` parameter.
pub open spec fn recv_window_pair() -> (Seq<u8>, Seq<u8>) {
    (bytes_of("recvWindow"@), bytes_of("5000"@))
}

/// The `timestamp` parameter carrying the server time's rendering.
pub open spec fn timestamp_pair(ts: Seq<u8>) -> (Seq<u8>, Seq<u8>) {
    (bytes_of("timestamp"@), ts)
}

/// The query-string half of the canonical string: the caller's parameters,
/// with `recvWindow` and `timestamp` appended when the request has no body.
pub open spec fn binance_param_str(
    params: Seq<(Seq<u8>, Seq<u8>)>,
    body: Seq<(Seq<u8>, Seq<u8>)>,
    ts: Seq<u8>,
) -> Seq<u8> {
    if body.len() == 0 {
        query_encoded(params.push(recv_window_pair()).push(timestamp_pair(ts)))
    } else {
        query_encoded(params)
    }
}

/// The body half of the canonical string: empty unless the request has
/// body parameters, which then carry `recvWindow` and `timestamp`.
pub open spec fn binance_body_str(
    params: Seq<(Seq<u8>, Seq<u8>)>,
    body: Seq<(Seq<u8>, Seq<u8>)>,
    ts: Seq<u8>,
) -> Seq<u8> {
    if body.len() == 0 {
        Seq::empty()
    } else {
        query_encoded(body.push(recv_window_pair()).push(timestamp_pair(ts)))
    }
}

/// The canonical string the signature covers: query string then body
/// string.
pub open spec fn binance_canonical(
    params: Seq<(Seq<u8>, Seq<u8>)>,
    body: Seq<(Seq<u8>, Seq<u8>)>,
    ts: Seq<u8>,
) -> Seq<u8> {
    binance_param_str(params, body, ts) + binance_body_str(params, body, ts)
}

/// The final authenticated parameter string: the query string with the
/// hex HMAC-SHA256 signature appended as a `signature` parameter.
pub open spec fn binance_signed_query(
    secret: Seq<u8>,
    params: Seq<(Seq<u8>, Seq<u8>)>,
    body: Seq<(Seq<u8>, Seq<u8>)>,
    ts: Seq<u8>,
) -> Seq<u8> {
    binance_param_str(params, body, ts) + bytes_of("&signature="@) + hex_lower_of(
        hmac_sha256_of(secret, binance_canonical(params, body, ts)),
    )
}

/// Build the signed Binance parameter string from the logical parameters
/// and the server timestamp's decimal rendering.
pub fn build_binance_sign(
    cfg: &BinanceConfig,
    params: Vec<Param>,
    body: Vec<Param>,
    timestamp: &str,
) -> (r: String)
    ensures
        bytes_of(r@) == binance_signed_query(
            bytes_of(cfg.secret_key@),
            pview(params@),
            pview(body@),
            bytes_of(timestamp@),
        ),
{
    let ghost params0 = pview(params@);
    let ghost body0 = pview(body@);
    let mut all_params = params;
    let mut all_body = body;
    if all_body.len() == 0 {
        all_params.push(param("recvWindow", "5000"));
        all_params.push(param("timestamp", timestamp));
        proof {
            assert(pview(all_params@) =~= params0.push(recv_window_pair()).push(
                timestamp_pair(bytes_of(timestamp@)),
            ));
        }
    } else {
        all_body.push(param("recvWindow", "5000"));
        all_body.push(param("timestamp", timestamp));
        proof {
            assert(pview(all_body@) =~= body0.push(recv_window_pair()).push(
                timestamp_pair(bytes_of(timestamp@)),
            ));
        }
    }
    let param_str = crate::query::encode_query(&all_params);
    let body_str = crate::query::encode_query(&all_body);
    let mut full: Vec<u8> = Vec::new();
    full.extend_from_slice(param_str.as_slice());
    full.extend_from_slice(body_str.as_slice());
    let key = str_bytes(cfg.secret_key.as_str());
    let sig = hmac_sha256_hex(key.as_slice(), full.as_slice());
    let mut out: Vec<u8> = Vec::new();
    out.extend_from_slice(param_str.as_slice());
    out.extend_from_slice(str_bytes("&signature=").as_slice());
    out.extend_from_slice(sig.as_slice());
    proof {
        assert(full@ =~= binance_canonical(params0, body0, bytes_of(timestamp@)));
        assert(out@ =~= binance_signed_query(
            bytes_of(cfg.secret_key@),
            params0,
            body0,
            bytes_of(timestamp@),
        ));
        lemma_query_encoded_ascii(pview(all_params@));
        reveal_strlit("&signature=");
        assert(vstd::utf8::is_ascii_chars("&signature="@));
        crate::codec::lemma_ascii_chars_bytes("&signature="@);
        crate::codec::lemma_hex_lower_ascii(hmac_sha256_of(key@, full@));
        assert(ascii_bytes(out@));
    }
    ascii_string(out.as_slice())
}

/// The upper-cased trading-pair symbol Binance expects, e.g. `CRVUSDT`.
pub open spec fn spec_pair_symbol(ex: Exchange) -> Seq<u8> {
    ascii_upper(bytes_of(ex.symbol@)) + ascii_upper(bytes_of(ex.currency@))
}

/// Build the upper-cased pair symbol.
pub fn pair_symbol(ex: &Exchange) -> (r: Vec<u8>)
    ensures
        r@ == spec_pair_symbol(*ex),
{
    let mut r = to_ascii_upper(str_bytes(ex.symbol.as_str()).as_slice());
    let cur = to_ascii_upper(str_bytes(ex.currency.as_str()).as_slice());
    r.extend_from_slice(cur.as_slice());
    r
}

/// The one `X-MBX-APIKEY` auth header.
pub open spec fn spec_auth_headers(cfg: BinanceConfig, hs: Seq<(String, String)>) -> bool {
    hs.len() == 1 && hs[0].0@ == "X-MBX-APIKEY"@ && hs[0].1@ == cfg.access_id@
}

/// Assemble a signed request: all parameters in the query string, the API
/// key in the auth header, an empty body.
fn signed_request(
    ex: &Exchange,
    cfg: &BinanceConfig,
    method: HttpMethod,
    path: &str,
    params: Vec<Param>,
    ts: &str,
) -> (r: HttpRequest)
    ensures
        r.method == method,
        r.protocol@ == ex.protocol@,
        r.host@ == ex.host@,
        r.path@ == path@,
        bytes_of(r.query@) == binance_signed_query(
            bytes_of(cfg.secret_key@),
            pview(params@),
            Seq::empty(),
            bytes_of(ts@),
        ),
        r.body@.len() == 0,
        spec_auth_headers(*cfg, r.headers@),
{
    let query = build_binance_sign(cfg, params, Vec::new(), ts);
    let mut headers: Vec<(String, String)> = Vec::new();
    headers.push((String::from_str("X-MBX-APIKEY"), cfg.access_id.clone()));
    proof {
        assert(pview(Seq::<Param>::empty()) =~= Seq::<(Seq<u8>, Seq<u8>)>::empty());
    }
    HttpRequest {
        method,
        protocol: ex.protocol.clone(),
        host: ex.host.clone(),
        path: String::from_str(path),
        query,
        body: String::new(),
        headers,
    }
}

/// The unauthenticated server-time request, `GET /api/v3/time`.
pub fn time_request(ex: &Exchange) -> (r: HttpRequest)
    ensures
        r.method == HttpMethod::GET,
        r.protocol@ == ex.protocol@,
        r.host@ == ex.host@,
        r.path@ == "/api/v3/time"@,
        r.query@.len() == 0,
        r.body@.len() == 0,
        r.headers@.len() == 0,
{
    HttpRequest {
        method: HttpMethod::GET,
        protocol: ex.protocol.clone(),
        host: ex.host.clone(),
        path: String::from_str("/api/v3/time"),
        query: String::new(),
        body: String::new(),
        headers: Vec::new(),
    }
}

/// The server time: the `serverTime` field's literal rendering, used
/// verbatim as the `timestamp` parameter.
pub open spec fn spec_server_time(body: JsonValue) -> Option<String> {
    match spec_get(body, "serverTime".spec_bytes()) {
        Some(v) => spec_as_num(v),
        None => None,
    }
}

/// Read the server time out of the time endpoint's response.
pub fn parse_server_time(body: &JsonValue, raw: &str) -> (r: Result<String, GateError>)
    ensures
        r matches Ok(s) ==> spec_server_time(*body) matches Some(t) && t@ == s@,
        r is Err <==> spec_server_time(*body) is None,
        r matches Err(e) ==> e matches GateError::UnexpectedResponseShape(p) && p@ == raw@,
{
    match body.get("serverTime") {
        Some(v) => {
            match v.as_num() {
                Some(s) => Ok(s.clone()),
                None => Err(GateError::UnexpectedResponseShape(String::from_str(raw))),
            }
        },
        None => Err(GateError::UnexpectedResponseShape(String::from_str(raw))),
    }
}

/// The unauthenticated depth request: `GET /api/v3/depth` for the upper-
/// cased pair at depth 5.
pub fn depth(ex: &Exchange) -> (r: HttpRequest)
    requires
        ex.wf(),
    ensures
        r.method == HttpMethod::GET,
        r.protocol@ == ex.protocol@,
        r.host@ == ex.host@,
        r.path@ == "/api/v3/depth"@,
        bytes_of(r.query@) == bytes_of("symbol="@) + spec_pair_symbol(*ex) + bytes_of(
            "&limit=5"@,
        ),
        r.body@.len() == 0,
        r.headers@.len() == 0,
{
    let mut q: Vec<u8> = str_bytes("symbol=");
    let pair = pair_symbol(ex);
    q.extend_from_slice(pair.as_slice());
    q.extend_from_slice(str_bytes("&limit=5").as_slice());
    proof {
        reveal_strlit("symbol=");
        reveal_strlit("&limit=5");
        assert(vstd::utf8::is_ascii_chars("symbol="@));
        assert(vstd::utf8::is_ascii_chars("&limit=5"@));
        crate::codec::lemma_ascii_chars_bytes("symbol="@);
        crate::codec::lemma_ascii_chars_bytes("&limit=5"@);
        crate::codec::lemma_ascii_chars_bytes(ex.symbol@);
        crate::codec::lemma_ascii_chars_bytes(ex.currency@);
        crate::codec::lemma_ascii_upper_ascii(bytes_of(ex.symbol@));
        crate::codec::lemma_ascii_upper_ascii(bytes_of(ex.currency@));
        assert(ascii_bytes(q@));
    }
    let query = ascii_string(q.as_slice());
    HttpRequest {
        method: HttpMethod::GET,
        protocol: ex.protocol.clone(),
        host: ex.host.clone(),
        path: String::from_str("/api/v3/depth"),
        query,
        body: String::new(),
        headers: Vec::new(),
    }
}

/// The signed account request, `GET /api/v3/account` with no logical
/// parameters.
pub fn account_info(ex: &Exchange, cfg: &BinanceConfig, ts: &str) -> (r: HttpRequest)
    ensures
        r.method == HttpMethod::GET,
        r.protocol@ == ex.protocol@,
        r.host@ == ex.host@,
        r.path@ == "/api/v3/account"@,
        bytes_of(r.query@) == binance_signed_query(
            bytes_of(cfg.secret_key@),
            Seq::empty(),
            Seq::empty(),
            bytes_of(ts@),
        ),
        r.body@.len() == 0,
        spec_auth_headers(*cfg, r.headers@),
{
    proof {
        assert(pview(Seq::<Param>::empty()) =~= Seq::<(Seq<u8>, Seq<u8>)>::empty());
    }
    signed_request(ex, cfg, HttpMethod::GET, "/api/v3/account", Vec::new(), ts)
}

/// The parameter list of an order lookup: the pair symbol and the order
/// id.
pub open spec fn spec_order_params(ex: Exchange, order_id: Seq<char>) -> Seq<(Seq<u8>, Seq<u8>)> {
    seq![
        (bytes_of("symbol"@), spec_pair_symbol(ex)),
        (bytes_of("orderId"@), bytes_of(order_id)),
    ]
}

/// The signed order lookup, `GET /api/v3/order`.
pub fn order_info(ex: &Exchange, cfg: &BinanceConfig, ts: &str, order_id: &str) -> (r:
    HttpRequest)
    ensures
        r.method == HttpMethod::GET,
        r.protocol@ == ex.protocol@,
        r.host@ == ex.host@,
        r.path@ == "/api/v3/order"@,
        bytes_of(r.query@) == binance_signed_query(
            bytes_of(cfg.secret_key@),
            spec_order_params(*ex, order_id@),
            Seq::empty(),
            bytes_of(ts@),
        ),
        r.body@.len() == 0,
        spec_auth_headers(*cfg, r.headers@),
{
    let mut params: Vec<Param> = Vec::new();
    params.push(param_bytes("symbol", pair_symbol(ex)));
    params.push(param("orderId", order_id));
    proof {
        assert(pview(params@) =~= spec_order_params(*ex, order_id@));
    }
    signed_request(ex, cfg, HttpMethod::GET, "/api/v3/order", params, ts)
}

/// The parameter list of an order creation.
pub open spec fn spec_create_params(ex: Exchange, side: OrderSide, price: Amount, volume: Amount)
    -> Seq<(Seq<u8>, Seq<u8>)> {
    seq![
        (bytes_of("symbol"@), spec_pair_symbol(ex)),
        (bytes_of("side"@), bytes_of(side.spec_label())),
        (bytes_of("type"@), bytes_of("LIMIT"@)),
        (bytes_of("timeInForce"@), bytes_of("GTC"@)),
        (bytes_of("quantity"@), amount_rendered(volume)),
        (bytes_of("price"@), amount_rendered(price)),
    ]
}

/// The signed limit-order creation, `POST /api/v3/order`, good till
/// canceled.
pub fn create_order(
    ex: &Exchange,
    cfg: &BinanceConfig,
    ts: &str,
    side: OrderSide,
    price: &Amount,
    volume: &Amount,
) -> (r: HttpRequest)
    requires
        price.wf(),
        volume.wf(),
    ensures
        r.method == HttpMethod::POST,
        r.protocol@ == ex.protocol@,
        r.host@ == ex.host@,
        r.path@ == "/api/v3/order"@,
        bytes_of(r.query@) == binance_signed_query(
            bytes_of(cfg.secret_key@),
            spec_create_params(*ex, side, *price, *volume),
            Seq::empty(),
            bytes_of(ts@),
        ),
        r.body@.len() == 0,
        spec_auth_headers(*cfg, r.headers@),
{
    let mut params: Vec<Param> = Vec::new();
    params.push(param_bytes("symbol", pair_symbol(ex)));
    params.push(param("side", side.label()));
    params.push(param("type", "LIMIT"));
    params.push(param("timeInForce", "GTC"));
    params.push(param_bytes("quantity", amount_render(volume)));
    params.push(param_bytes("price", amount_render(price)));
    proof {
        assert(pview(params@) =~= spec_create_params(*ex, side, *price, *volume));
    }
    signed_request(ex, cfg, HttpMethod::POST, "/api/v3/order", params, ts)
}

/// The signed order cancellation, `DELETE /api/v3/order`.
pub fn cancel_order(ex: &Exchange, cfg: &BinanceConfig, ts: &str, order_id: &str) -> (r:
    HttpRequest)
    ensures
        r.method == HttpMethod::DELETE,
        r.protocol@ == ex.protocol@,
        r.host@ == ex.host@,
        r.path@ == "/api/v3/order"@,
        bytes_of(r.query@) == binance_signed_query(
            bytes_of(cfg.secret_key@),
            spec_order_params(*ex, order_id@),
            Seq::empty(),
            bytes_of(ts@),
        ),
        r.body@.len() == 0,
        spec_auth_headers(*cfg, r.headers@),
{
    let mut params: Vec<Param> = Vec::new();
    params.push(param_bytes("symbol", pair_symbol(ex)));
    params.push(param("orderId", order_id));
    proof {
        assert(pview(params@) =~= spec_order_params(*ex, order_id@));
    }
    signed_request(ex, cfg, HttpMethod::DELETE, "/api/v3/order", params, ts)
}

/// The pair-symbol-only parameter list.
pub open spec fn spec_symbol_params(ex: Exchange) -> Seq<(Seq<u8>, Seq<u8>)> {
    seq![(bytes_of("symbol"@), spec_pair_symbol(ex))]
}

/// The signed cancellation of all open orders, `DELETE /api/v3/openOrders`.
pub fn cancel_all_order(ex: &Exchange, cfg: &BinanceConfig, ts: &str) -> (r: HttpRequest)
    ensures
        r.method == HttpMethod::DELETE,
        r.protocol@ == ex.protocol@,
        r.host@ == ex.host@,
        r.path@ == "/api/v3/openOrders"@,
        bytes_of(r.query@) == binance_signed_query(
            bytes_of(cfg.secret_key@),
            spec_symbol_params(*ex),
            Seq::empty(),
            bytes_of(ts@),
        ),
        r.body@.len() == 0,
        spec_auth_headers(*cfg, r.headers@),
{
    let mut params: Vec<Param> = Vec::new();
    params.push(param_bytes("symbol", pair_symbol(ex)));
    proof {
        assert(pview(params@) =~= spec_symbol_params(*ex));
    }
    signed_request(ex, cfg, HttpMethod::DELETE, "/api/v3/openOrders", params, ts)
}

/// The signed margin-pair lookup, `GET /sapi/v1/margin/isolated/pair`.
pub fn loan_info(ex: &Exchange, cfg: &BinanceConfig, ts: &str) -> (r: HttpRequest)
    ensures
        r.method == HttpMethod::GET,
        r.protocol@ == ex.protocol@,
        r.host@ == ex.host@,
        r.path@ == "/sapi/v1/margin/isolated/pair"@,
        bytes_of(r.query@) == binance_signed_query(
            bytes_of(cfg.secret_key@),
            spec_symbol_params(*ex),
            Seq::empty(),
            bytes_of(ts@),
        ),
        r.body@.len() == 0,
        spec_auth_headers(*cfg, r.headers@),
{
    let mut params: Vec<Param> = Vec::new();
    params.push(param_bytes("symbol", pair_symbol(ex)));
    proof {
        assert(pview(params@) =~= spec_symbol_params(*ex));
    }
    signed_request(ex, cfg, HttpMethod::GET, "/sapi/v1/margin/isolated/pair", params, ts)
}

/// The withdrawal chain Binance expects: `trx` for USDT, the asset's own
/// ticker otherwise.
pub open spec fn spec_binance_chain(asset: Seq<char>) -> Seq<u8> {
    if asset == "usdt"@ {
        bytes_of("trx"@)
    } else {
        bytes_of(asset)
    }
}

/// The parameter list of a withdrawal.
pub open spec fn spec_withdraw_params(
    asset: Seq<char>,
    address: Seq<char>,
    amount: Amount,
) -> Seq<(Seq<u8>, Seq<u8>)> {
    seq![
        (bytes_of("coin"@), bytes_of(asset)),
        (bytes_of("address"@), bytes_of(address)),
        (bytes_of("network"@), spec_binance_chain(asset)),
        (bytes_of("amount"@), amount_rendered(amount)),
    ]
}

/// The signed withdrawal, `POST /sapi/v1/capital/withdraw/apply`.  The raw
/// amount is passed through; Binance applies its own fee.
pub fn withdraw(
    ex: &Exchange,
    cfg: &BinanceConfig,
    ts: &str,
    asset: &str,
    address: &str,
    amount: &Amount,
) -> (r: HttpRequest)
    requires
        amount.wf(),
    ensures
        r.method == HttpMethod::POST,
        r.protocol@ == ex.protocol@,
        r.host@ == ex.host@,
        r.path@ == "/sapi/v1/capital/withdraw/apply"@,
        bytes_of(r.query@) == binance_signed_query(
            bytes_of(cfg.secret_key@),
            spec_withdraw_params(asset@, address@, *amount),
            Seq::empty(),
            bytes_of(ts@),
        ),
        r.body@.len() == 0,
        spec_auth_headers(*cfg, r.headers@),
{
    let mut params: Vec<Param> = Vec::new();
    params.push(param("coin", asset));
    params.push(param("address", address));
    if crate::codec::str_bytes_eq(asset, "usdt") {
        params.push(param_bytes("network", str_bytes(crate::config::binance_usdt_withdraw_chain())));
        proof {
            crate::codec::lemma_bytes_of_injective(asset@, "usdt"@);
        }
    } else {
        params.push(param("network", asset));
    }
    params.push(param_bytes("amount", amount_render(amount)));
    proof {
        assert(pview(params@) =~= spec_withdraw_params(asset@, address@, *amount));
    }
    signed_request(ex, cfg, HttpMethod::POST, "/sapi/v1/capital/withdraw/apply", params, ts)
}

/// The Binance order-status vocabulary.
pub open spec fn spec_order_status(s: Seq<u8>) -> Option<OrderStatus> {
    if s == bytes_of("NEW"@) {
        Some(OrderStatus::NEW)
    } else if s == bytes_of("PARTIALLY_FILLED"@) {
        Some(OrderStatus::PARTIALLYFILLED)
    } else if s == bytes_of("FILLED"@) {
        Some(OrderStatus::FILLED)
    } else if s == bytes_of("CANCELED"@) {
        Some(OrderStatus::CANCELED)
    } else if s == bytes_of("REJECTED"@) {
        Some(OrderStatus::REJECTED)
    } else if s == bytes_of("EXPIRED"@) {
        Some(OrderStatus::EXPIRED)
    } else {
        None
    }
}

/// Map a Binance status string into the shared vocabulary; anything else
/// is unknown.
pub fn order_status_from(s: &str) -> (r: Option<OrderStatus>)
    ensures
        r == spec_order_status(s.spec_bytes()),
{
    if crate::codec::str_bytes_eq(s, "NEW") {
        Some(OrderStatus::NEW)
    } else if crate::codec::str_bytes_eq(s, "PARTIALLY_FILLED") {
        Some(OrderStatus::PARTIALLYFILLED)
    } else if crate::codec::str_bytes_eq(s, "FILLED") {
        Some(OrderStatus::FILLED)
    } else if crate::codec::str_bytes_eq(s, "CANCELED") {
        Some(OrderStatus::CANCELED)
    } else if crate::codec::str_bytes_eq(s, "REJECTED") {
        Some(OrderStatus::REJECTED)
    } else if crate::codec::str_bytes_eq(s, "EXPIRED") {
        Some(OrderStatus::EXPIRED)
    } else {
        None
    }
}

/// The Binance order-side vocabulary.
pub open spec fn spec_order_side(s: Seq<u8>) -> Option<OrderSide> {
    if s == bytes_of("BUY"@) {
        Some(OrderSide::BUY)
    } else if s == bytes_of("SELL"@) {
        Some(OrderSide::SELL)
    } else {
        None
    }
}

/// Map a Binance side string into the shared vocabulary.
pub fn order_side_from(s: &str) -> (r: Option<OrderSide>)
    ensures
        r == spec_order_side(s.spec_bytes()),
{
    if crate::codec::str_bytes_eq(s, "BUY") {
        Some(OrderSide::BUY)
    } else if crate::codec::str_bytes_eq(s, "SELL") {
        Some(OrderSide::SELL)
    } else {
        None
    }
}

/// A book entry `[price, volume]` of decimal strings.
pub open spec fn spec_level(v: JsonValue) -> Option<PriceLevel> {
    match spec_as_arr(v) {
        Some(xs) => if xs.len() < 2 {
            None
        } else {
            match (crate::json::spec_str_amount(xs[0]), crate::json::spec_str_amount(xs[1])) {
                (Some(p), Some(q)) => Some(PriceLevel { price: p, volume: q }),
                _ => None,
            }
        },
        None => None,
    }
}

/// The first `n` book entries, all of which must parse.
pub open spec fn spec_levels(xs: Seq<JsonValue>, n: nat) -> Option<Seq<PriceLevel>>
    decreases n,
{
    if n == 0 {
        Some(Seq::empty())
    } else if xs.len() < n {
        None
    } else {
        match (spec_levels(xs, (n - 1) as nat), spec_level(xs[n - 1])) {
            (Some(acc), Some(l)) => Some(acc.push(l)),
            _ => None,
        }
    }
}

/// One unparsable entry spoils the whole prefix.
proof fn lemma_levels_none(xs: Seq<JsonValue>, i: int, n: nat)
    requires
        0 <= i < n <= xs.len(),
        spec_level(xs[i]) is None,
    ensures
        spec_levels(xs, n) is None,
    decreases n,
{
    if i < n - 1 {
        lemma_levels_none(xs, i, (n - 1) as nat);
    }
}

/// Parse one book entry.
fn parse_level(v: &JsonValue) -> (r: Option<PriceLevel>)
    ensures
        r == spec_level(*v),
{
    match v.as_arr() {
        Some(xs) => {
            if xs.len() < 2 {
                return None;
            }
            let p = crate::json::str_amount(&xs[0]);
            let q = crate::json::str_amount(&xs[1]);
            match (p, q) {
                (Some(pp), Some(qq)) => Some(PriceLevel { price: pp, volume: qq }),
                _ => None,
            }
        },
        None => None,
    }
}

/// Parse the top five book entries.
fn parse_levels5(xs: &Vec<JsonValue>) -> (r: Option<Vec<PriceLevel>>)
    ensures
        r matches Some(v) ==> spec_levels(xs@, 5) == Some(v@),
        r is None ==> spec_levels(xs@, 5) is None,
{
    if xs.len() < 5 {
        return None;
    }
    let mut out: Vec<PriceLevel> = Vec::new();
    let mut i: usize = 0;
    proof {
        assert(out@ =~= Seq::<PriceLevel>::empty());
    }
    while i < 5
        invariant
            0 <= i <= 5,
            xs@.len() >= 5,
            spec_levels(xs@, i as nat) == Some(out@),
        decreases 5 - i,
    {
        match parse_level(&xs[i]) {
            Some(l) => {
                out.push(l);
                proof {
                    assert(spec_levels(xs@, (i + 1) as nat) == Some(out@));
                }
            },
            None => {
                proof {
                    lemma_levels_none(xs@, i as int, 5);
                }
                return None;
            },
        }
        i = i + 1;
    }
    Some(out)
}

/// Whether the depth response carries a non-null `asks` field, Binance's
/// success marker for this call.
pub open spec fn spec_depth_present(body: JsonValue) -> bool {
    match spec_get(body, bytes_of("asks"@)) {
        Some(v) => !(v is Null),
        None => false,
    }
}

/// The top five levels of one side of the book.
pub open spec fn spec_depth_side(body: JsonValue, field: Seq<u8>) -> Option<Seq<PriceLevel>> {
    match spec_get(body, field) {
        Some(v) => match spec_as_arr(v) {
            Some(xs) => spec_levels(xs, 5),
            None => None,
        },
        None => None,
    }
}

/// Normalize a depth response: five asks and five bids, each a pair of
/// decimal strings; the response carries no timestamp, so it is zero.
pub fn depth_response(body: &JsonValue, raw: &str) -> (r: Result<DepthInfo, GateError>)
    ensures
        !spec_depth_present(*body) ==> (r matches Err(e)
            && e matches GateError::ExchangeRejected { exchange, payload } && exchange
            == Exchanges::BINANCE && payload@ == raw@),
        spec_depth_present(*body) && (spec_depth_side(*body, bytes_of("asks"@)) is None
            || spec_depth_side(*body, bytes_of("bids"@)) is None) ==> (r matches Err(e)
            && e matches GateError::UnexpectedResponseShape(p) && p@ == raw@),
        spec_depth_present(*body) && spec_depth_side(*body, bytes_of("asks"@)) is Some
            && spec_depth_side(*body, bytes_of("bids"@)) is Some ==> (r matches Ok(d)
            && d.tick.asks@ == spec_depth_side(*body, bytes_of("asks"@))->0 && d.tick.bids@
            == spec_depth_side(*body, bytes_of("bids"@))->0 && d.ts == 0),
{
    match body.get("asks") {
        None => Err(GateError::rejected(Exchanges::BINANCE, raw)),
        Some(av) => {
            if av.is_null() {
                return Err(GateError::rejected(Exchanges::BINANCE, raw));
            }
            let asks = match av.as_arr() {
                None => {
                    return Err(GateError::shape(raw));
                },
                Some(xs) => {
                    match parse_levels5(xs) {
                        None => {
                            return Err(GateError::shape(raw));
                        },
                        Some(v) => v,
                    }
                },
            };
            match body.get("bids") {
                None => Err(GateError::shape(raw)),
                Some(bv) => {
                    match bv.as_arr() {
                        None => Err(GateError::shape(raw)),
                        Some(xs) => {
                            match parse_levels5(xs) {
                                None => Err(GateError::shape(raw)),
                                Some(bids) => Ok(
                                    DepthInfo { tick: Tick { asks, bids }, ts: 0 },
                                ),
                            }
                        },
                    }
                },
            }
        },
    }
}

/// Whether the account response carries a non-null `balances` field.
pub open spec fn spec_balances_present(body: JsonValue) -> bool {
    match spec_get(body, bytes_of("balances"@)) {
        Some(v) => !(v is Null),
        None => false,
    }
}

/// The balance entries.
pub open spec fn spec_balances(body: JsonValue) -> Option<Seq<JsonValue>> {
    match spec_get(body, bytes_of("balances"@)) {
        Some(v) => spec_as_arr(v),
        None => None,
    }
}

/// The available/frozen amounts of the entry whose `asset` is `want`.
pub open spec fn spec_balance_pair(body: JsonValue, want: Seq<u8>) -> Option<(Amount, Amount)> {
    match spec_balances(body) {
        Some(xs) => match spec_find(xs, bytes_of("asset"@), want) {
            Some(e) => match (
                crate::json::spec_field_amount(e, bytes_of("free"@)),
                crate::json::spec_field_amount(e, bytes_of("locked"@)),
            ) {
                (Some(a), Some(f)) => Some((a, f)),
                _ => None,
            },
            None => None,
        },
        None => None,
    }
}

/// Read one asset's free/locked amounts out of the balance array.
fn balance_pair(body: &JsonValue, want: &[u8], raw: &str) -> (r: Result<
    (Amount, Amount),
    GateError,
>)
    requires
        spec_balances_present(*body),
    ensures
        r matches Ok(p) ==> spec_balance_pair(*body, want@) == Some(p),
        r is Err <==> spec_balance_pair(*body, want@) is None,
        r matches Err(e) ==> (e matches GateError::UnexpectedResponseShape(p) && p@ == raw@),
{
    match body.get("balances") {
        None => Err(GateError::shape(raw)),
        Some(bv) => {
            match bv.as_arr() {
                None => Err(GateError::shape(raw)),
                Some(xs) => {
                    match crate::json::find_by_field(xs, "asset", want) {
                        None => Err(GateError::shape(raw)),
                        Some(e) => {
                            let free = crate::json::field_amount(e, "free");
                            let locked = crate::json::field_amount(e, "locked");
                            match (free, locked) {
                                (Some(a), Some(f)) => Ok((a, f)),
                                _ => Err(GateError::shape(raw)),
                            }
                        },
                    }
                },
            }
        },
    }
}

/// Normalize an account response into the four balances of the traded
/// pair.  A response missing the queried asset is an error, never a
/// zero-filled result.
pub fn account_info_response(ex: &Exchange, body: &JsonValue, raw: &str) -> (r: Result<
    AccountInfo,
    GateError,
>)
    ensures
        !spec_balances_present(*body) ==> (r matches Err(e)
            && e matches GateError::ExchangeRejected { exchange, payload } && exchange
            == Exchanges::BINANCE && payload@ == raw@),
        spec_balances_present(*body) && (spec_balance_pair(*body, ascii_upper(bytes_of(ex.symbol@)))
            is None || spec_balance_pair(*body, ascii_upper(bytes_of(ex.currency@))) is None) ==> (
        r matches Err(e) && e matches GateError::UnexpectedResponseShape(p) && p@ == raw@),
        spec_balance_pair(*body, ascii_upper(bytes_of(ex.symbol@))) matches Some(sp) ==> (
        spec_balance_pair(*body, ascii_upper(bytes_of(ex.currency@))) matches Some(cp) ==> (
        spec_balances_present(*body) ==> (r matches Ok(a) && a.available_symbol == sp.0
            && a.frozen_symbol == sp.1 && a.available_currency == cp.0 && a.frozen_currency
            == cp.1))),
{
    match body.get("balances") {
        None => {
            return Err(GateError::rejected(Exchanges::BINANCE, raw));
        },
        Some(bv) => {
            if bv.is_null() {
                return Err(GateError::rejected(Exchanges::BINANCE, raw));
            }
        },
    }
    let sym_w = to_ascii_upper(str_bytes(ex.symbol.as_str()).as_slice());
    let cur_w = to_ascii_upper(str_bytes(ex.currency.as_str()).as_slice());
    let sp = match balance_pair(body, sym_w.as_slice(), raw) {
        Ok(p) => p,
        Err(e) => {
            return Err(e);
        },
    };
    let cp = match balance_pair(body, cur_w.as_slice(), raw) {
        Ok(p) => p,
        Err(e) => {
            return Err(e);
        },
    };
    Ok(
        AccountInfo {
            available_symbol: sp.0,
            frozen_symbol: sp.1,
            available_currency: cp.0,
            frozen_currency: cp.1,
        },
    )
}

/// Whether a response carries a non-null field, Binance's success marker.
pub open spec fn spec_field_present(body: JsonValue, field: Seq<u8>) -> bool {
    match spec_get(body, field) {
        Some(v) => !(v is Null),
        None => false,
    }
}

/// The order id: a number field whose literal is a `u64` digit string,
/// used verbatim as the id.
pub open spec fn spec_order_id(body: JsonValue, field: Seq<u8>) -> Option<String> {
    match spec_get(body, field) {
        Some(v) => match spec_as_num(v) {
            Some(s) => if bytes_of(s@).len() > 0 && is_digits(bytes_of(s@)) && digits_val(
                bytes_of(s@),
            ) <= u64::MAX {
                Some(s)
            } else {
                None
            },
            None => None,
        },
        None => None,
    }
}

/// Read a `u64`-valued number field's literal.
fn order_id_str(body: &JsonValue, field: &str) -> (r: Option<String>)
    ensures
        r matches Some(s) ==> (spec_order_id(*body, field.spec_bytes()) matches Some(t) && t@
            == s@),
        r is None ==> spec_order_id(*body, field.spec_bytes()) is None,
{
    match body.get(field) {
        Some(v) => {
            match v.as_num() {
                Some(s) => {
                    match crate::num::parse_u64(s.as_str().as_bytes()) {
                        Some(_) => Some(s.clone()),
                        None => None,
                    }
                },
                None => None,
            }
        },
        None => None,
    }
}

/// All the fields an order record needs, well-typed.
pub open spec fn spec_order_shape_ok(body: JsonValue) -> bool {
    spec_order_id(body, bytes_of("orderId"@)) is Some && crate::json::spec_field_amount(
        body,
        bytes_of("origQty"@),
    ) is Some && crate::json::spec_field_amount(body, bytes_of("price"@)) is Some
        && crate::json::spec_field_str(body, bytes_of("status"@)) is Some
        && crate::json::spec_field_str(body, bytes_of("side"@)) is Some
        && crate::json::spec_field_u64(body, bytes_of("time"@)) is Some
        && crate::json::spec_field_amount(body, bytes_of("executedQty"@)) is Some
}

/// The status string of the order response.
pub open spec fn spec_order_status_str(body: JsonValue) -> Option<String> {
    crate::json::spec_field_str(body, bytes_of("status"@))
}

/// The side string of the order response.
pub open spec fn spec_order_side_str(body: JsonValue) -> Option<String> {
    crate::json::spec_field_str(body, bytes_of("side"@))
}

/// Normalize an order lookup.  The average fill price is not part of this
/// response and defaults to zero.
pub fn order_info_response(body: &JsonValue, raw: &str) -> (r: Result<OrderInfo, GateError>)
    ensures
        !spec_field_present(*body, bytes_of("orderId"@)) ==> (r matches Err(e)
            && e matches GateError::ExchangeRejected { exchange, payload } && exchange
            == Exchanges::BINANCE && payload@ == raw@),
        spec_field_present(*body, bytes_of("orderId"@)) && !spec_order_shape_ok(*body) ==> (
        r matches Err(e) && e matches GateError::UnexpectedResponseShape(p) && p@ == raw@),
        spec_field_present(*body, bytes_of("orderId"@)) && spec_order_shape_ok(*body)
            && spec_order_status(bytes_of(spec_order_status_str(*body)->0@)) is None ==> (
        r matches Err(e) && e matches GateError::UnknownEnumValue(u) && u@ == spec_order_status_str(
            *body,
        )->0@),
        spec_field_present(*body, bytes_of("orderId"@)) && spec_order_shape_ok(*body)
            && spec_order_status(bytes_of(spec_order_status_str(*body)->0@)) is Some
            && spec_order_side(bytes_of(spec_order_side_str(*body)->0@)) is None ==> (
        r matches Err(e) && e matches GateError::UnknownEnumValue(u) && u@ == spec_order_side_str(
            *body,
        )->0@),
        spec_field_present(*body, bytes_of("orderId"@)) && spec_order_shape_ok(*body)
            && spec_order_status(bytes_of(spec_order_status_str(*body)->0@)) is Some
            && spec_order_side(bytes_of(spec_order_side_str(*body)->0@)) is Some ==> (
        r matches Ok(d) && d.id@ == spec_order_id(*body, bytes_of("orderId"@))->0@ && d.volume
            == crate::json::spec_field_amount(*body, bytes_of("origQty"@))->0 && d.price
            == crate::json::spec_field_amount(*body, bytes_of("price"@))->0 && d.status
            == spec_order_status(bytes_of(spec_order_status_str(*body)->0@))->0 && d.side
            == spec_order_side(bytes_of(spec_order_side_str(*body)->0@))->0 && d.created_at
            == crate::json::spec_field_u64(*body, bytes_of("time"@))->0 && d.trade_volume
            == crate::json::spec_field_amount(*body, bytes_of("executedQty"@))->0
            && d.trade_avg_price == (Amount { mantissa: 0, scale: 0 })),
{
    match body.get("orderId") {
        None => {
            return Err(GateError::rejected(Exchanges::BINANCE, raw));
        },
        Some(v) => {
            if v.is_null() {
                return Err(GateError::rejected(Exchanges::BINANCE, raw));
            }
        },
    }
    let id = match order_id_str(body, "orderId") {
        Some(s) => s,
        None => {
            return Err(GateError::shape(raw));
        },
    };
    let volume = match crate::json::field_amount(body, "origQty") {
        Some(a) => a,
        None => {
            return Err(GateError::shape(raw));
        },
    };
    let price = match crate::json::field_amount(body, "price") {
        Some(a) => a,
        None => {
            return Err(GateError::shape(raw));
        },
    };
    let trade_volume = match crate::json::field_amount(body, "executedQty") {
        Some(a) => a,
        None => {
            return Err(GateError::shape(raw));
        },
    };
    let created_at = match crate::json::field_u64(body, "time") {
        Some(t) => t,
        None => {
            return Err(GateError::shape(raw));
        },
    };
    let side_s = match crate::json::field_str(body, "side") {
        Some(s) => s.clone(),
        None => {
            return Err(GateError::shape(raw));
        },
    };
    let status_s = match crate::json::field_str(body, "status") {
        Some(s) => s.clone(),
        None => {
            return Err(GateError::shape(raw));
        },
    };
    let status = match order_status_from(status_s.as_str()) {
        Some(st) => st,
        None => {
            return Err(GateError::unknown(status_s.as_str()));
        },
    };
    let side = match order_side_from(side_s.as_str()) {
        Some(sd) => sd,
        None => {
            return Err(GateError::unknown(side_s.as_str()));
        },
    };
    Ok(
        OrderInfo {
            id,
            volume,
            price,
            created_at,
            status,
            trade_avg_price: Amount { mantissa: 0, scale: 0 },
            side,
            trade_volume,
        },
    )
}

/// Normalize an order creation: the fresh order's id.
pub fn create_order_response(body: &JsonValue, raw: &str) -> (r: Result<String, GateError>)
    ensures
        !spec_field_present(*body, bytes_of("orderId"@)) ==> (r matches Err(e)
            && e matches GateError::ExchangeRejected { exchange, payload } && exchange
            == Exchanges::BINANCE && payload@ == raw@),
        spec_field_present(*body, bytes_of("orderId"@)) && spec_order_id(
            *body,
            bytes_of("orderId"@),
        ) is None ==> (r matches Err(e) && e matches GateError::UnexpectedResponseShape(p) && p@
            == raw@),
        spec_field_present(*body, bytes_of("orderId"@)) && spec_order_id(
            *body,
            bytes_of("orderId"@),
        ) is Some ==> (r matches Ok(s) && s@ == spec_order_id(*body, bytes_of("orderId"@))->0@),
{
    match body.get("orderId") {
        None => {
            return Err(GateError::rejected(Exchanges::BINANCE, raw));
        },
        Some(v) => {
            if v.is_null() {
                return Err(GateError::rejected(Exchanges::BINANCE, raw));
            }
        },
    }
    match order_id_str(body, "orderId") {
        Some(s) => Ok(s),
        None => Err(GateError::shape(raw)),
    }
}

/// Normalize an order cancellation: whether the order ended `CANCELED`.
pub fn cancel_order_response(body: &JsonValue, raw: &str) -> (r: Result<bool, GateError>)
    ensures
        !spec_field_present(*body, bytes_of("status"@)) ==> (r matches Err(e)
            && e matches GateError::ExchangeRejected { exchange, payload } && exchange
            == Exchanges::BINANCE && payload@ == raw@),
        spec_field_present(*body, bytes_of("status"@)) && crate::json::spec_field_str(
            *body,
            bytes_of("status"@),
        ) is None ==> (r matches Err(e) && e matches GateError::UnexpectedResponseShape(p) && p@
            == raw@),
        crate::json::spec_field_str(*body, bytes_of("status"@)) matches Some(s) ==> (
        spec_field_present(*body, bytes_of("status"@)) ==> r == Result::<bool, GateError>::Ok(
            bytes_of(s@) == bytes_of("CANCELED"@),
        )),
{
    match body.get("status") {
        None => Err(GateError::rejected(Exchanges::BINANCE, raw)),
        Some(v) => {
            if v.is_null() {
                return Err(GateError::rejected(Exchanges::BINANCE, raw));
            }
            match v.as_str() {
                Some(s) => Ok(crate::codec::str_bytes_eq(s.as_str(), "CANCELED")),
                None => Err(GateError::shape(raw)),
            }
        },
    }
}

/// Whether every order in the list ended `CANCELED`; `None` when an entry
/// lacks a status string.
pub open spec fn spec_all_cancelled(xs: Seq<JsonValue>) -> Option<bool>
    decreases xs.len(),
{
    if xs.len() == 0 {
        Some(true)
    } else {
        match crate::json::spec_field_str(xs[0], bytes_of("status"@)) {
            Some(s) => match spec_all_cancelled(xs.drop_first()) {
                Some(b) => Some(b && bytes_of(s@) == bytes_of("CANCELED"@)),
                None => None,
            },
            None => None,
        }
    }
}

/// Normalize a cancel-all response: an error envelope is a rejection;
/// otherwise the response is the list of touched orders, and the result
/// says whether every one of them ended `CANCELED`.
pub fn cancel_all_order_response(body: &JsonValue, raw: &str) -> (r: Result<bool, GateError>)
    ensures
        spec_field_present(*body, bytes_of("code"@)) ==> (r matches Err(e)
            && e matches GateError::ExchangeRejected { exchange, payload } && exchange
            == Exchanges::BINANCE && payload@ == raw@),
        !spec_field_present(*body, bytes_of("code"@)) && (spec_as_arr(*body) is None || (
        spec_as_arr(*body) matches Some(xs) && spec_all_cancelled(xs) is None)) ==> (
        r matches Err(e) && e matches GateError::UnexpectedResponseShape(p) && p@ == raw@),
        spec_as_arr(*body) matches Some(xs) ==> (spec_all_cancelled(xs) matches Some(b) ==> (
        !spec_field_present(*body, bytes_of("code"@)) ==> r == Result::<bool, GateError>::Ok(b))),
{
    match body.get("code") {
        Some(v) => {
            if !v.is_null() {
                return Err(GateError::rejected(Exchanges::BINANCE, raw));
            }
        },
        None => {},
    }
    let xs = match body.as_arr() {
        Some(xs) => xs,
        None => {
            return Err(GateError::shape(raw));
        },
    };
    let n = xs.len();
    let mut all: bool = true;
    let mut i: usize = 0;
    proof {
        assert(xs@.skip(0) =~= xs@);
    }
    while i < n
        invariant
            0 <= i <= n == xs@.len(),
            !spec_field_present(*body, bytes_of("code"@)),
            spec_as_arr(*body) == Some(xs@),
            match spec_all_cancelled(xs@.skip(i as int)) {
                Some(b) => spec_all_cancelled(xs@) == Some(b && all),
                None => spec_all_cancelled(xs@) is None,
            },
        decreases n - i,
    {
        proof {
            assert(xs@.skip(i as int)[0] == xs@[i as int]);
            assert(xs@.skip(i as int).drop_first() =~= xs@.skip(i as int + 1));
        }
        match crate::json::field_str(&xs[i], "status") {
            None => {
                return Err(GateError::shape(raw));
            },
            Some(s) => {
                let c = crate::codec::str_bytes_eq(s.as_str(), "CANCELED");
                all = all && c;
            },
        }
        i = i + 1;
    }
    proof {
        assert(xs@.skip(n as int) =~= Seq::<JsonValue>::empty());
    }
    Ok(all)
}

/// Whether the margin-pair response grants margin trading.
pub open spec fn spec_margin_trade(body: JsonValue) -> Option<bool> {
    match spec_get(body, bytes_of("isMarginTrade"@)) {
        Some(v) => spec_as_bool(v),
        None => None,
    }
}

/// Normalize the margin-pair lookup.  Margin support means a loan is
/// available with no stated minimum; its absence is an error, not a zero.
pub fn loan_info_response(ex: &Exchange, body: &JsonValue, raw: &str) -> (r: Result<
    LoanInfo,
    GateError,
>)
    ensures
        !(body is Obj) || spec_field_present(*body, bytes_of("code"@)) || spec_margin_trade(*body)
            != Some(true) ==> (r matches Err(e) && e matches GateError::ExchangeRejected {
            exchange,
            payload,
        } && exchange == Exchanges::BINANCE && payload@ == raw@),
        body is Obj && !spec_field_present(*body, bytes_of("code"@)) && spec_margin_trade(*body)
            == Some(true) ==> (r matches Ok(li) && li.symbol@ == ex.symbol@ && li.min_volume == (
        Amount { mantissa: 0, scale: 0 })),
{
    let is_obj = match body {
        JsonValue::Obj(_) => true,
        _ => false,
    };
    if !is_obj {
        return Err(GateError::rejected(Exchanges::BINANCE, raw));
    }
    match body.get("code") {
        Some(v) => {
            if !v.is_null() {
                return Err(GateError::rejected(Exchanges::BINANCE, raw));
            }
        },
        None => {},
    }
    let margin = match body.get("isMarginTrade") {
        Some(v) => v.as_bool(),
        None => None,
    };
    match margin {
        Some(true) => Ok(
            LoanInfo { symbol: ex.symbol.clone(), min_volume: Amount { mantissa: 0, scale: 0 } },
        ),
        _ => Err(GateError::rejected(Exchanges::BINANCE, raw)),
    }
}

/// Normalize a withdrawal: the exchange-assigned request id.
pub fn withdraw_response(body: &JsonValue, raw: &str) -> (r: Result<String, GateError>)
    ensures
        !spec_field_present(*body, bytes_of("id"@)) ==> (r matches Err(e)
            && e matches GateError::ExchangeRejected { exchange, payload } && exchange
            == Exchanges::BINANCE && payload@ == raw@),
        spec_field_present(*body, bytes_of("id"@)) && crate::json::spec_field_str(
            *body,
            bytes_of("id"@),
        ) is None ==> (r matches Err(e) && e matches GateError::UnexpectedResponseShape(p) && p@
            == raw@),
        crate::json::spec_field_str(*body, bytes_of("id"@)) matches Some(s) ==> (
        spec_field_present(*body, bytes_of("id"@)) ==> (r matches Ok(t) && t@ == s@)),
{
    match body.get("id") {
        None => Err(GateError::rejected(Exchanges::BINANCE, raw)),
        Some(v) => {
            if v.is_null() {
                return Err(GateError::rejected(Exchanges::BINANCE, raw));
            }
            match v.as_str() {
                Some(s) => Ok(s.clone()),
                None => Err(GateError::shape(raw)),
            }
        },
    }
}

} // verus!
