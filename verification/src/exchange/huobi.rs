//! The Huobi protocol: the caller's parameters plus the four auth fields
//! (`AccessKeyId`, `SignatureMethod`, `SignatureVersion`, `Timestamp`) are
//! sorted lexicographically by key, form-urlencoded, and signed over
//! `METHOD\nHOST\nPATH\nquery`; the base64 HMAC-SHA256 goes back into the
//! query as `Signature`.  Identity travels entirely in the query, never in
//! a header.  Success is a `status == "ok"` envelope around `data`.

use vstd::prelude::*;

verus! {

use vstd::string::{StringExecFns, StringSliceAdditionalSpecFns};
use crate::codec::{ascii_bytes, ascii_string, ascii_lower, ascii_upper, bytes_of, chars_of_bytes,
    str_bytes, to_ascii_lower, to_ascii_upper};
use crate::amount::{Amount, amount_render, amount_rendered};
use crate::clock::{huobi_time_of, max_epoch_secs, format_huobi_time};
use crate::config::HuobiConfig;
use crate::exchange::Exchange;
use crate::json::{JsonValue, spec_get, spec_as_arr, spec_find2};
use crate::num::pow10;
use crate::query::{Param, param, param_bytes, pview, query_encoded, sort_pairs, pair_encoded,
    lemma_query_encoded_ascii, lemma_pair_encoded_ascii};
use crate::sign::{hmac_sha256_of, hmac_sha256_base64};
use crate::types::{AccountInfo, GateError, HttpMethod, HttpRequest, LoanInfo, Exchanges};

/// The caller's parameters together with the four auth fields, before
/// sorting.
pub open spec fn huobi_auth_params(
    params: Seq<(Seq<u8>, Seq<u8>)>,
    access: Seq<u8>,
    sig_method: Seq<u8>,
    sig_version: Seq<u8>,
    ts: Seq<u8>,
) -> Seq<(Seq<u8>, Seq<u8>)> {
    params + seq![
        (bytes_of("AccessKeyId"@), access),
        (bytes_of("SignatureMethod"@), sig_method),
        (bytes_of("SignatureVersion"@), sig_version),
        (bytes_of("Timestamp"@), ts),
    ]
}

/// The query string that is signed: the auth-extended parameter list,
/// stably sorted by key, form-urlencoded.
pub open spec fn huobi_query(
    params: Seq<(Seq<u8>, Seq<u8>)>,
    cfg: HuobiConfig,
    ts: Seq<u8>,
) -> Seq<u8> {
    query_encoded(
        sort_pairs(
            huobi_auth_params(
                params,
                bytes_of(cfg.access_id@),
                bytes_of(cfg.signature_method@),
                bytes_of(cfg.signature_version@),
                ts,
            ),
        ),
    )
}

/// The canonical string: upper-cased method, host, path and query joined
/// by newlines.
pub open spec fn huobi_canonical(
    method: Seq<char>,
    host: Seq<char>,
    path: Seq<char>,
    qs: Seq<u8>,
) -> Seq<u8> {
    ascii_upper(bytes_of(method)) + seq![0x0au8] + bytes_of(host) + seq![0x0au8] + bytes_of(path)
        + seq![0x0au8] + qs
}

/// The base64 HMAC-SHA256 signature of the canonical string.
pub open spec fn huobi_signature(secret: Seq<u8>, canonical: Seq<u8>) -> Seq<u8> {
    crate::codec::base64_of(hmac_sha256_of(secret, canonical))
}

/// The final authenticated query: the sorted query string with the
/// signature appended as a form-urlencoded `Signature` parameter.
pub open spec fn huobi_signed_query(
    params: Seq<(Seq<u8>, Seq<u8>)>,
    cfg: HuobiConfig,
    method: Seq<char>,
    host: Seq<char>,
    path: Seq<char>,
    ts: Seq<u8>,
) -> Seq<u8> {
    let qs = huobi_query(params, cfg, ts);
    qs + seq![0x26u8] + pair_encoded(
        (
            bytes_of("Signature"@),
            huobi_signature(
                bytes_of(cfg.secret_key@),
                huobi_canonical(method, host, path, qs),
            ),
        ),
    )
}

/// The law behind the signed query: whatever order the caller's
/// parameters arrive in, the parameter list that is serialized and signed
/// carries its keys in lexicographic order.
pub proof fn lemma_huobi_query_sorted(
    params: Seq<(Seq<u8>, Seq<u8>)>,
    access: Seq<u8>,
    sig_method: Seq<u8>,
    sig_version: Seq<u8>,
    ts: Seq<u8>,
)
    ensures
        crate::query::keys_sorted(
            sort_pairs(huobi_auth_params(params, access, sig_method, sig_version, ts)),
        ),
{
    crate::query::lemma_sort_pairs_sorted(
        huobi_auth_params(params, access, sig_method, sig_version, ts),
    );
}

/// Build the signed Huobi query from the logical parameters and the
/// formatted timestamp.
pub fn build_huobi_sign(
    cfg: &HuobiConfig,
    method: &str,
    host: &str,
    path: &str,
    params: Vec<Param>,
    time_str: &str,
) -> (r: String)
    ensures
        bytes_of(r@) == huobi_signed_query(
            pview(params@),
            *cfg,
            method@,
            host@,
            path@,
            bytes_of(time_str@),
        ),
{
    let ghost params0 = pview(params@);
    let mut all = params;
    all.push(param("AccessKeyId", cfg.access_id.as_str()));
    all.push(param("SignatureMethod", cfg.signature_method.as_str()));
    all.push(param("SignatureVersion", cfg.signature_version.as_str()));
    all.push(param("Timestamp", time_str));
    proof {
        assert(pview(all@) =~= huobi_auth_params(
            params0,
            bytes_of(cfg.access_id@),
            bytes_of(cfg.signature_method@),
            bytes_of(cfg.signature_version@),
            bytes_of(time_str@),
        ));
    }
    let sorted = crate::query::sort_params(all);
    let qs = crate::query::encode_query(&sorted);
    let mut canonical: Vec<u8> = to_ascii_upper(str_bytes(method).as_slice());
    canonical.push(0x0a);
    canonical.extend_from_slice(str_bytes(host).as_slice());
    canonical.push(0x0a);
    canonical.extend_from_slice(str_bytes(path).as_slice());
    canonical.push(0x0a);
    canonical.extend_from_slice(qs.as_slice());
    proof {
        assert(canonical@ =~= huobi_canonical(method@, host@, path@, qs@));
    }
    let key = str_bytes(cfg.secret_key.as_str());
    let sig = hmac_sha256_base64(key.as_slice(), canonical.as_slice());
    let sig_pair = crate::query::encode_pair(&param_bytes("Signature", sig));
    let mut out: Vec<u8> = Vec::new();
    out.extend_from_slice(qs.as_slice());
    out.push(0x26);
    out.extend_from_slice(sig_pair.as_slice());
    proof {
        assert(out@ =~= huobi_signed_query(
            params0,
            *cfg,
            method@,
            host@,
            path@,
            bytes_of(time_str@),
        ));
        lemma_query_encoded_ascii(pview(sorted@));
        lemma_pair_encoded_ascii(
            (
                bytes_of("Signature"@),
                huobi_signature(
                    bytes_of(cfg.secret_key@),
                    huobi_canonical(method@, host@, path@, qs@),
                ),
            ),
        );
        assert(ascii_bytes(out@));
    }
    ascii_string(out.as_slice())
}

/// Render a server time in milliseconds as the second-precision ISO-8601
/// string Huobi signs.  A timestamp outside the calendar's range is a data
/// error.
pub fn time_string(server_time_ms: i64) -> (r: Result<String, GateError>)
    ensures
        r is Ok <==> 0 <= server_time_ms && server_time_ms / 1000 < max_epoch_secs(),
        r matches Ok(s) ==> s@ == huobi_time_of(server_time_ms as int / 1000),
        r matches Err(e) ==> e is UnexpectedResponseShape,
{
    if server_time_ms >= 0 && server_time_ms / 1000 < 253402300800 {
        Ok(format_huobi_time(server_time_ms / 1000))
    } else {
        Err(GateError::shape("server time out of range"))
    }
}

/// The unauthenticated server-time request, `GET /v1/common/timestamp`.
pub fn time_request(ex: &Exchange) -> (r: HttpRequest)
    ensures
        r.method == HttpMethod::GET,
        r.protocol@ == ex.protocol@,
        r.host@ == ex.host@,
        r.path@ == "/v1/common/timestamp"@,
        r.query@.len() == 0,
        r.body@.len() == 0,
        r.headers@.len() == 0,
{
    HttpRequest {
        method: HttpMethod::GET,
        protocol: ex.protocol.clone(),
        host: ex.host.clone(),
        path: String::from_str("/v1/common/timestamp"),
        query: String::new(),
        body: String::new(),
        headers: Vec::new(),
    }
}

/// Read the server time (epoch milliseconds) out of the `data` field.
pub fn parse_server_time(body: &JsonValue, raw: &str) -> (r: Result<u64, GateError>)
    ensures
        r matches Ok(t) ==> crate::json::spec_field_u64(*body, bytes_of("data"@)) == Some(t),
        r is Err <==> crate::json::spec_field_u64(*body, bytes_of("data"@)) is None,
        r matches Err(e) ==> (e matches GateError::UnexpectedResponseShape(p) && p@ == raw@),
{
    match crate::json::field_u64(body, "data") {
        Some(t) => Ok(t),
        None => Err(GateError::shape(raw)),
    }
}

/// The balance path, `/v1/account/accounts/{id}/balance`.
pub open spec fn spec_balance_path(cfg: HuobiConfig) -> Seq<char> {
    "/v1/account/accounts/"@ + cfg.account_id@ + "/balance"@
}

/// The signed account-balance request.
pub fn account_info(ex: &Exchange, cfg: &HuobiConfig, time_str: &str) -> (r: HttpRequest)
    ensures
        r.method == HttpMethod::GET,
        r.protocol@ == ex.protocol@,
        r.host@ == ex.host@,
        r.path@ == spec_balance_path(*cfg),
        bytes_of(r.query@) == huobi_signed_query(
            Seq::empty(),
            *cfg,
            "GET"@,
            ex.host@,
            spec_balance_path(*cfg),
            bytes_of(time_str@),
        ),
        r.body@.len() == 0,
        r.headers@.len() == 0,
{
    let mut path = String::from_str("/v1/account/accounts/");
    path.append(cfg.account_id.as_str());
    path.append("/balance");
    proof {
        assert(pview(Seq::<Param>::empty()) =~= Seq::<(Seq<u8>, Seq<u8>)>::empty());
    }
    let query = build_huobi_sign(cfg, "GET", ex.host.as_str(), path.as_str(), Vec::new(), time_str);
    HttpRequest {
        method: HttpMethod::GET,
        protocol: ex.protocol.clone(),
        host: ex.host.clone(),
        path,
        query,
        body: String::new(),
        headers: Vec::new(),
    }
}

/// The lower-cased pair symbol Huobi expects, e.g. `crvusdt`.
pub open spec fn spec_pair_symbol_lower(ex: Exchange) -> Seq<u8> {
    ascii_lower(bytes_of(ex.symbol@)) + ascii_lower(bytes_of(ex.currency@))
}

/// The signed margin-loan lookup, `GET /v1/margin/loan-info`.
pub fn loan_info(ex: &Exchange, cfg: &HuobiConfig, time_str: &str) -> (r: HttpRequest)
    ensures
        r.method == HttpMethod::GET,
        r.protocol@ == ex.protocol@,
        r.host@ == ex.host@,
        r.path@ == "/v1/margin/loan-info"@,
        bytes_of(r.query@) == huobi_signed_query(
            seq![(bytes_of("symbols"@), spec_pair_symbol_lower(*ex))],
            *cfg,
            "GET"@,
            ex.host@,
            "/v1/margin/loan-info"@,
            bytes_of(time_str@),
        ),
        r.body@.len() == 0,
        r.headers@.len() == 0,
{
    let mut symbols = to_ascii_lower(str_bytes(ex.symbol.as_str()).as_slice());
    let cur = to_ascii_lower(str_bytes(ex.currency.as_str()).as_slice());
    symbols.extend_from_slice(cur.as_slice());
    let mut params: Vec<Param> = Vec::new();
    params.push(param_bytes("symbols", symbols));
    proof {
        assert(pview(params@) =~~= seq![(bytes_of("symbols"@), spec_pair_symbol_lower(*ex))]);
    }
    let query = build_huobi_sign(
        cfg,
        "GET",
        ex.host.as_str(),
        "/v1/margin/loan-info",
        params,
        time_str,
    );
    HttpRequest {
        method: HttpMethod::GET,
        protocol: ex.protocol.clone(),
        host: ex.host.clone(),
        path: String::from_str("/v1/margin/loan-info"),
        query,
        body: String::new(),
        headers: Vec::new(),
    }
}

/// The per-asset fixed withdrawal fee: one whole USDT, nothing for other
/// assets.
pub open spec fn spec_fee_units(asset: Seq<char>) -> u64 {
    if asset == "usdt"@ {
        1
    } else {
        0
    }
}

/// The fixed withdrawal fee for an asset.
pub fn huobi_withdraw_fee(asset: &str) -> (r: u64)
    ensures
        r == spec_fee_units(asset@),
{
    if crate::codec::str_bytes_eq(asset, "usdt") {
        proof {
            crate::codec::lemma_bytes_of_injective(asset@, "usdt"@);
        }
        1
    } else {
        0
    }
}

/// The withdrawal chain Huobi expects: the TRC20 alias for USDT, the
/// asset's own ticker otherwise.
pub open spec fn spec_huobi_chain(asset: Seq<char>) -> Seq<char> {
    if asset == "usdt"@ {
        "trc20usdt"@
    } else {
        asset
    }
}

/// The requested amount net of the fixed fee.
pub open spec fn spec_net_amount(amount: Amount, units: u64) -> Amount {
    Amount {
        mantissa: (amount.mantissa - units * pow10(amount.scale as nat)) as u64,
        scale: amount.scale,
    }
}

/// The JSON body of a withdrawal: fixed field order, values verbatim.
pub open spec fn spec_withdraw_body(
    address: Seq<char>,
    net: Amount,
    chain: Seq<char>,
    asset: Seq<char>,
    fee: Amount,
) -> Seq<char> {
    "{\"address\":\""@ + address + "\",\"amount\":\""@ + chars_of_bytes(amount_rendered(net))
        + "\",\"chain\":\""@ + chain + "\",\"currency\":\""@ + asset + "\",\"fee\":\""@
        + chars_of_bytes(amount_rendered(fee)) + "\"}"@
}

/// The signed withdrawal, `POST /v1/dw/withdraw/api/create`.  The fixed
/// per-asset fee is subtracted from the requested amount and declared in
/// the body; the amount must cover the fee.
pub fn withdraw(
    ex: &Exchange,
    cfg: &HuobiConfig,
    time_str: &str,
    asset: &str,
    address: &str,
    amount: &Amount,
) -> (r: Result<HttpRequest, GateError>)
    requires
        amount.wf(),
    ensures
        r is Ok <==> spec_fee_units(asset@) * pow10(amount.scale as nat) <= amount.mantissa,
        r matches Ok(q) ==> ({
            &&& q.method == HttpMethod::POST
            &&& q.protocol@ == ex.protocol@
            &&& q.host@ == ex.host@
            &&& q.path@ == "/v1/dw/withdraw/api/create"@
            &&& bytes_of(q.query@) == huobi_signed_query(
                Seq::empty(),
                *cfg,
                "POST"@,
                ex.host@,
                "/v1/dw/withdraw/api/create"@,
                bytes_of(time_str@),
            )
            &&& q.body@ == spec_withdraw_body(
                address@,
                spec_net_amount(*amount, spec_fee_units(asset@)),
                spec_huobi_chain(asset@),
                asset@,
                Amount { mantissa: spec_fee_units(asset@), scale: 0 },
            )
            &&& q.headers@.len() == 0
        }),
        r matches Err(e) ==> e is UnexpectedResponseShape,
{
    let fee_units = huobi_withdraw_fee(asset);
    let net = match crate::amount::amount_sub_units(amount, fee_units) {
        Some(n) => n,
        None => {
            proof {
                crate::num::lemma_pow10_mono(amount.scale as nat, 18);
                crate::num::lemma_pow10_bound();
            }
            return Err(GateError::shape("withdrawal amount below the fee"));
        },
    };
    proof {
        assert(pview(Seq::<Param>::empty()) =~= Seq::<(Seq<u8>, Seq<u8>)>::empty());
    }
    let query = build_huobi_sign(
        cfg,
        "POST",
        ex.host.as_str(),
        "/v1/dw/withdraw/api/create",
        Vec::new(),
        time_str,
    );
    let fee = Amount { mantissa: fee_units, scale: 0 };
    proof {
        crate::amount::lemma_amount_rendered_ascii(net);
        crate::amount::lemma_amount_rendered_ascii(Amount { mantissa: fee_units, scale: 0 });
    }
    let net_str = ascii_string(amount_render(&net).as_slice());
    let fee_str = ascii_string(amount_render(&fee).as_slice());
    let mut body = String::from_str("{\"address\":\"");
    body.append(address);
    body.append("\",\"amount\":\"");
    body.append(net_str.as_str());
    body.append("\",\"chain\":\"");
    if crate::codec::str_bytes_eq(asset, "usdt") {
        proof {
            crate::codec::lemma_bytes_of_injective(asset@, "usdt"@);
        }
        body.append(crate::config::huobi_usdt_withdraw_chain());
    } else {
        body.append(asset);
    }
    body.append("\",\"currency\":\"");
    body.append(asset);
    body.append("\",\"fee\":\"");
    body.append(fee_str.as_str());
    body.append("\"}");
    proof {
        assert(body@ =~= spec_withdraw_body(
            address@,
            net,
            spec_huobi_chain(asset@),
            asset@,
            fee,
        ));
    }
    Ok(
        HttpRequest {
            method: HttpMethod::POST,
            protocol: ex.protocol.clone(),
            host: ex.host.clone(),
            path: String::from_str("/v1/dw/withdraw/api/create"),
            query,
            body,
            headers: Vec::new(),
        },
    )
}

/// Whether the envelope reports success: `status == "ok"`.
pub open spec fn spec_status_ok(body: JsonValue) -> bool {
    match crate::json::spec_field_str(body, bytes_of("status"@)) {
        Some(s) => bytes_of(s@) == bytes_of("ok"@),
        None => false,
    }
}

/// Whether the envelope reports success.
pub fn status_ok(body: &JsonValue) -> (r: bool)
    ensures
        r == spec_status_ok(*body),
{
    match crate::json::field_str(body, "status") {
        Some(s) => crate::codec::str_bytes_eq(s.as_str(), "ok"),
        None => false,
    }
}

/// The `data.list` entries of a balance response.
pub open spec fn spec_balance_list(body: JsonValue) -> Option<Seq<JsonValue>> {
    match spec_get(body, bytes_of("data"@)) {
        Some(d) => match spec_get(d, bytes_of("list"@)) {
            Some(l) => spec_as_arr(l),
            None => None,
        },
        None => None,
    }
}

/// The balance of the entry for a currency and balance type.
pub open spec fn spec_typed_balance(body: JsonValue, cur: Seq<u8>, typ: Seq<u8>) -> Option<
    Amount,
> {
    match spec_balance_list(body) {
        Some(xs) => match spec_find2(xs, bytes_of("currency"@), cur, bytes_of("type"@), typ) {
            Some(e) => crate::json::spec_field_amount(e, bytes_of("balance"@)),
            None => None,
        },
        None => None,
    }
}

/// Read one currency/type balance out of the list.
fn typed_balance(body: &JsonValue, cur: &[u8], typ: &str, raw: &str) -> (r: Result<
    Amount,
    GateError,
>)
    ensures
        r matches Ok(a) ==> spec_typed_balance(*body, cur@, typ.spec_bytes()) == Some(a),
        r is Err <==> spec_typed_balance(*body, cur@, typ.spec_bytes()) is None,
        r matches Err(e) ==> (e matches GateError::UnexpectedResponseShape(p) && p@ == raw@),
{
    let data = match body.get("data") {
        Some(d) => d,
        None => {
            return Err(GateError::shape(raw));
        },
    };
    let list = match data.get("list") {
        Some(l) => l,
        None => {
            return Err(GateError::shape(raw));
        },
    };
    let xs = match list.as_arr() {
        Some(xs) => xs,
        None => {
            return Err(GateError::shape(raw));
        },
    };
    let typ_b = str_bytes(typ);
    match crate::json::find_by_field2(xs, "currency", cur, "type", typ_b.as_slice()) {
        Some(e) => {
            match crate::json::field_amount(e, "balance") {
                Some(a) => Ok(a),
                None => Err(GateError::shape(raw)),
            }
        },
        None => Err(GateError::shape(raw)),
    }
}

/// Normalize a balance response: the `trade` and `frozen` balances of the
/// traded symbol and the quote currency, matched by the configured
/// tickers.
pub fn account_info_response(ex: &Exchange, body: &JsonValue, raw: &str) -> (r: Result<
    AccountInfo,
    GateError,
>)
    ensures
        !spec_status_ok(*body) ==> (r matches Err(e) && e matches GateError::ExchangeRejected {
            exchange,
            payload,
        } && exchange == Exchanges::HUOBI && payload@ == raw@),
        spec_status_ok(*body) && (spec_typed_balance(*body, bytes_of(ex.symbol@), bytes_of("trade"@))
            is None || spec_typed_balance(*body, bytes_of(ex.symbol@), bytes_of("frozen"@)) is None
            || spec_typed_balance(*body, bytes_of(ex.currency@), bytes_of("trade"@)) is None
            || spec_typed_balance(*body, bytes_of(ex.currency@), bytes_of("frozen"@)) is None) ==> (
        r matches Err(e) && e matches GateError::UnexpectedResponseShape(p) && p@ == raw@),
        spec_status_ok(*body) && spec_typed_balance(*body, bytes_of(ex.symbol@), bytes_of("trade"@))
            is Some && spec_typed_balance(*body, bytes_of(ex.symbol@), bytes_of("frozen"@)) is Some
            && spec_typed_balance(*body, bytes_of(ex.currency@), bytes_of("trade"@)) is Some
            && spec_typed_balance(*body, bytes_of(ex.currency@), bytes_of("frozen"@)) is Some ==> (
        r matches Ok(a) && a.available_symbol == spec_typed_balance(
            *body,
            bytes_of(ex.symbol@),
            bytes_of("trade"@),
        )->0 && a.frozen_symbol == spec_typed_balance(
            *body,
            bytes_of(ex.symbol@),
            bytes_of("frozen"@),
        )->0 && a.available_currency == spec_typed_balance(
            *body,
            bytes_of(ex.currency@),
            bytes_of("trade"@),
        )->0 && a.frozen_currency == spec_typed_balance(
            *body,
            bytes_of(ex.currency@),
            bytes_of("frozen"@),
        )->0),
{
    if !status_ok(body) {
        return Err(GateError::rejected(Exchanges::HUOBI, raw));
    }
    let sym = str_bytes(ex.symbol.as_str());
    let cur = str_bytes(ex.currency.as_str());
    let available_symbol = match typed_balance(body, sym.as_slice(), "trade", raw) {
        Ok(a) => a,
        Err(e) => {
            return Err(e);
        },
    };
    let frozen_symbol = match typed_balance(body, sym.as_slice(), "frozen", raw) {
        Ok(a) => a,
        Err(e) => {
            return Err(e);
        },
    };
    let available_currency = match typed_balance(body, cur.as_slice(), "trade", raw) {
        Ok(a) => a,
        Err(e) => {
            return Err(e);
        },
    };
    let frozen_currency = match typed_balance(body, cur.as_slice(), "frozen", raw) {
        Ok(a) => a,
        Err(e) => {
            return Err(e);
        },
    };
    Ok(AccountInfo { available_symbol, frozen_symbol, available_currency, frozen_currency })
}

/// The `min-loan-amt` of the first currency of the first loan-info entry.
pub open spec fn spec_min_loan(body: JsonValue) -> Option<Amount> {
    match spec_get(body, bytes_of("data"@)) {
        Some(d) => match spec_as_arr(d) {
            Some(xs) => if xs.len() == 0 {
                None
            } else {
                match spec_get(xs[0], bytes_of("currencies"@)) {
                    Some(c) => match spec_as_arr(c) {
                        Some(cs) => if cs.len() == 0 {
                            None
                        } else {
                            crate::json::spec_field_amount(cs[0], bytes_of("min-loan-amt"@))
                        },
                        None => None,
                    },
                    None => None,
                }
            },
            None => None,
        },
        None => None,
    }
}

/// Whether the loan-info payload carries at least one entry.
pub open spec fn spec_loan_nonempty(body: JsonValue) -> bool {
    match spec_get(body, bytes_of("data"@)) {
        Some(d) => match spec_as_arr(d) {
            Some(xs) => xs.len() > 0,
            None => false,
        },
        None => false,
    }
}

/// Normalize a margin-loan response: the minimum borrowable volume of the
/// pair's first currency.  An empty data list means margin is not offered
/// for the pair, which is an error of its own, not a zero.
pub fn loan_info_response(ex: &Exchange, body: &JsonValue, raw: &str) -> (r: Result<
    LoanInfo,
    GateError,
>)
    ensures
        !spec_status_ok(*body) || (spec_status_ok(*body) && !spec_loan_nonempty(*body)) ==> (
        r matches Err(e) && e matches GateError::ExchangeRejected { exchange, payload } && exchange
            == Exchanges::HUOBI && payload@ == raw@),
        spec_status_ok(*body) && spec_loan_nonempty(*body) && spec_min_loan(*body) is None ==> (
        r matches Err(e) && e matches GateError::UnexpectedResponseShape(p) && p@ == raw@),
        spec_status_ok(*body) && spec_loan_nonempty(*body) && spec_min_loan(*body) is Some ==> (
        r matches Ok(li) && li.symbol@ == ex.symbol@ && li.min_volume == spec_min_loan(*body)->0),
{
    if !status_ok(body) {
        return Err(GateError::rejected(Exchanges::HUOBI, raw));
    }
    let data = match body.get("data") {
        Some(d) => d,
        None => {
            return Err(GateError::rejected(Exchanges::HUOBI, raw));
        },
    };
    let xs = match data.as_arr() {
        Some(xs) => xs,
        None => {
            return Err(GateError::rejected(Exchanges::HUOBI, raw));
        },
    };
    if xs.len() == 0 {
        return Err(GateError::rejected(Exchanges::HUOBI, raw));
    }
    let currencies = match xs[0].get("currencies") {
        Some(c) => c,
        None => {
            return Err(GateError::shape(raw));
        },
    };
    let cs = match currencies.as_arr() {
        Some(cs) => cs,
        None => {
            return Err(GateError::shape(raw));
        },
    };
    if cs.len() == 0 {
        return Err(GateError::shape(raw));
    }
    match crate::json::field_amount(&cs[0], "min-loan-amt") {
        Some(a) => Ok(LoanInfo { symbol: ex.symbol.clone(), min_volume: a }),
        None => Err(GateError::shape(raw)),
    }
}

/// Normalize a withdrawal response: `data` carries the numeric request id,
/// returned as its decimal rendering.
pub fn withdraw_response(body: &JsonValue, raw: &str) -> (r: Result<String, GateError>)
    ensures
        crate::json::spec_field_u64_literal(*body, bytes_of("data"@)) matches Some(s) ==> (
        r matches Ok(t) && t@ == s@),
        spec_data_present(*body) && crate::json::spec_field_u64_literal(*body, bytes_of("data"@))
            is None ==> (r matches Err(e) && e matches GateError::UnexpectedResponseShape(p) && p@
            == raw@),
        !spec_data_present(*body) ==> (r matches Err(e) && e matches GateError::ExchangeRejected {
            exchange,
            payload,
        } && exchange == Exchanges::HUOBI && payload@ == raw@),
{
    match body.get("data") {
        None => Err(GateError::rejected(Exchanges::HUOBI, raw)),
        Some(v) => {
            if v.is_null() {
                return Err(GateError::rejected(Exchanges::HUOBI, raw));
            }
            match crate::json::field_u64_literal(body, "data") {
                Some(s) => Ok(s),
                None => Err(GateError::shape(raw)),
            }
        },
    }
}

/// Whether the withdrawal response carries a non-null `data` field.
pub open spec fn spec_data_present(body: JsonValue) -> bool {
    match spec_get(body, bytes_of("data"@)) {
        Some(v) => !(v is Null),
        None => false,
    }
}

} // verus!
