//! The OKEX protocol: body parameters are serialized into a single-line
//! JSON object (array values are inlined, an empty key splices a bare
//! array), the string signed is `timestamp + METHOD + path + body` with a
//! millisecond `Z`-suffixed timestamp, and identity travels in four
//! `OK-ACCESS-*` headers.  Success is a `code == "0"` envelope.

use vstd::prelude::*;

verus! {

use vstd::string::{StringExecFns, StrSliceExecFns, StringSliceAdditionalSpecFns};
use crate::codec::{ascii_bytes, ascii_string, ascii_upper, bytes_of, chars_of_bytes, str_bytes,
    to_ascii_upper};
use crate::amount::{Amount, amount_render, amount_rendered};
use crate::clock::{okex_time_of, max_epoch_secs, format_okex_time};
use crate::config::OkexConfig;
use crate::exchange::Exchange;
use crate::json::{JsonValue, spec_get, spec_as_arr, spec_find2};
use crate::sign::{hmac_sha256_of, hmac_sha256_base64};
use crate::types::{AccountInfo, GateError, HttpMethod, HttpRequest, Exchanges};

/// The view of a body-parameter list.
pub open spec fn bview(items: Seq<(String, String)>) -> Seq<(Seq<char>, Seq<char>)> {
    items.map_values(|p: (String, String)| (p.0@, p.1@))
}

/// One serialized body item.  A value starting with `[` is spliced in as
/// raw JSON (bare, when the key is empty); any other value is quoted.  The
/// last item closes the object.
pub open spec fn okex_item(key: Seq<char>, value: Seq<char>, last: bool) -> Seq<char>
    recommends
        value.len() > 0,
{
    if value[0] == '[' {
        if key.len() == 0 {
            value
        } else if last {
            "\""@ + key + "\":"@ + value + "}"@
        } else {
            "\""@ + key + "\":"@ + value + ","@
        }
    } else {
        if last {
            "\""@ + key + "\":\""@ + value + "\"}"@
        } else {
            "\""@ + key + "\":\""@ + value + "\","@
        }
    }
}

/// The serialized items, in order; the last one closes the object.
pub open spec fn okex_items(items: Seq<(Seq<char>, Seq<char>)>) -> Seq<char>
    decreases items.len(),
{
    if items.len() == 0 {
        Seq::empty()
    } else if items.len() == 1 {
        okex_item(items[0].0, items[0].1, true)
    } else {
        okex_item(items[0].0, items[0].1, false) + okex_items(items.drop_first())
    }
}

/// The whole body: an opening brace unless the body is empty or a bare
/// array, then the items.
pub open spec fn okex_body_of(items: Seq<(Seq<char>, Seq<char>)>, is_array: bool) -> Seq<char> {
    if items.len() > 0 && !is_array {
        "{"@ + okex_items(items)
    } else {
        Seq::empty() + okex_items(items)
    }
}

/// Every body value is non-empty (the serializer reads its first
/// character).
pub open spec fn values_nonempty(items: Seq<(Seq<char>, Seq<char>)>) -> bool {
    forall|i: int| 0 <= i < items.len() ==> (#[trigger] items[i].1).len() > 0
}

/// Serialize one body item.
fn render_item(key: &str, value: &str, last: bool) -> (r: String)
    requires
        value@.len() > 0,
    ensures
        r@ == okex_item(key@, value@, last),
{
    let c = value.get_char(0);
    let mut r = String::new();
    if c == '[' {
        if key.unicode_len() == 0 {
            r.append(value);
        } else {
            r.append("\"");
            r.append(key);
            r.append("\":");
            r.append(value);
            if last {
                r.append("}");
            } else {
                r.append(",");
            }
        }
    } else {
        r.append("\"");
        r.append(key);
        r.append("\":\"");
        r.append(value);
        if last {
            r.append("\"}");
        } else {
            r.append("\",");
        }
    }
    proof {
        assert(r@ =~= okex_item(key@, value@, last));
    }
    r
}

/// Serialize the body-parameter list.
pub fn okex_body(items: &Vec<(String, String)>, is_array: bool) -> (r: String)
    requires
        values_nonempty(bview(items@)),
    ensures
        r@ == okex_body_of(bview(items@), is_array),
{
    let ghost all = bview(items@);
    let n = items.len();
    let mut r = String::new();
    if n > 0 && !is_array {
        r.append("{");
    }
    let mut i: usize = 0;
    proof {
        assert(all.skip(0) =~= all);
        assert(r@ + okex_items(all.skip(0)) =~= okex_body_of(all, is_array));
    }
    while i < n
        invariant
            0 <= i <= n == items@.len(),
            all == bview(items@),
            values_nonempty(all),
            r@ + okex_items(all.skip(i as int)) == okex_body_of(all, is_array),
        decreases n - i,
    {
        let e = &items[i];
        let last = i + 1 == n;
        proof {
            assert(all[i as int] == (items@[i as int].0@, items@[i as int].1@));
            assert(all.skip(i as int)[0] == all[i as int]);
            assert(all.skip(i as int).drop_first() =~= all.skip(i as int + 1));
        }
        let piece = render_item(e.0.as_str(), e.1.as_str(), last);
        r.append(piece.as_str());
        proof {
            assert(all.skip(i as int).len() == 1 <==> i + 1 == n);
            assert(r@ + okex_items(all.skip(i as int + 1)) =~= okex_body_of(all, is_array));
        }
        i = i + 1;
    }
    proof {
        assert(all.skip(n as int) =~= Seq::<(Seq<char>, Seq<char>)>::empty());
        assert(r@ =~= okex_body_of(all, is_array));
    }
    r
}

/// The canonical string: timestamp, upper-cased method, path (query
/// included), then the serialized body.
pub open spec fn okex_canonical(
    ts: Seq<char>,
    method: HttpMethod,
    path: Seq<char>,
    body: Seq<char>,
) -> Seq<char> {
    ts + method.spec_label() + path + body
}

/// The base64 HMAC-SHA256 signature of the canonical string.
pub open spec fn okex_signature(
    secret: Seq<char>,
    ts: Seq<char>,
    method: HttpMethod,
    path: Seq<char>,
    body: Seq<char>,
) -> Seq<char> {
    chars_of_bytes(
        crate::codec::base64_of(
            hmac_sha256_of(bytes_of(secret), bytes_of(okex_canonical(ts, method, path, body))),
        ),
    )
}

/// Build the OKEX signature and serialized body for a request.
pub fn build_okex_sign(
    cfg: &OkexConfig,
    method: HttpMethod,
    path: &str,
    body_items: &Vec<(String, String)>,
    is_array: bool,
    time_str: &str,
) -> (r: (String, String))
    requires
        values_nonempty(bview(body_items@)),
    ensures
        r.1@ == okex_body_of(bview(body_items@), is_array),
        r.0@ == okex_signature(cfg.secret_key@, time_str@, method, path@, r.1@),
{
    let body = okex_body(body_items, is_array);
    let mut canonical = String::from_str(time_str);
    canonical.append(method.label());
    canonical.append(path);
    canonical.append(body.as_str());
    let key = str_bytes(cfg.secret_key.as_str());
    let msg = str_bytes(canonical.as_str());
    let sig_bytes = hmac_sha256_base64(key.as_slice(), msg.as_slice());
    proof {
        crate::codec::lemma_base64_ascii(hmac_sha256_of(key@, msg@));
    }
    let sig = ascii_string(sig_bytes.as_slice());
    (sig, body)
}

/// Render a server time in milliseconds as the millisecond-precision
/// `Z`-suffixed ISO-8601 string OKEX signs.
pub fn time_string(server_time_ms: i64) -> (r: Result<String, GateError>)
    ensures
        r is Ok <==> 0 <= server_time_ms && server_time_ms / 1000 < max_epoch_secs(),
        r matches Ok(s) ==> s@ == okex_time_of(
            server_time_ms as int / 1000,
            (server_time_ms as int % 1000) * 1_000_000,
        ),
        r matches Err(e) ==> e is UnexpectedResponseShape,
{
    if server_time_ms >= 0 && server_time_ms / 1000 < 253402300800 {
        let secs = server_time_ms / 1000;
        let rem = (server_time_ms % 1000) as u32;
        Ok(format_okex_time(secs, rem * 1_000_000))
    } else {
        Err(GateError::shape("server time out of range"))
    }
}

/// The unauthenticated server-time request, `GET /api/v5/public/time`.
pub fn time_request(ex: &Exchange) -> (r: HttpRequest)
    ensures
        r.method == HttpMethod::GET,
        r.protocol@ == ex.protocol@,
        r.host@ == ex.host@,
        r.path@ == "/api/v5/public/time"@,
        r.query@.len() == 0,
        r.body@.len() == 0,
        r.headers@.len() == 0,
{
    HttpRequest {
        method: HttpMethod::GET,
        protocol: ex.protocol.clone(),
        host: ex.host.clone(),
        path: String::from_str("/api/v5/public/time"),
        query: String::new(),
        body: String::new(),
        headers: Vec::new(),
    }
}

/// The server time: `data[0].ts`, a decimal-string epoch in milliseconds.
pub open spec fn spec_server_time(body: JsonValue) -> Option<u64> {
    match spec_get(body, bytes_of("data"@)) {
        Some(d) => match spec_as_arr(d) {
            Some(xs) => if xs.len() == 0 {
                None
            } else {
                match crate::json::spec_field_str(xs[0], bytes_of("ts"@)) {
                    Some(s) => if bytes_of(s@).len() > 0 && crate::num::is_digits(bytes_of(s@))
                        && crate::num::digits_val(bytes_of(s@)) <= u64::MAX {
                        Some(crate::num::digits_val(bytes_of(s@)) as u64)
                    } else {
                        None
                    },
                    None => None,
                }
            },
            None => None,
        },
        None => None,
    }
}

/// Read the server time out of the time endpoint's response.
pub fn parse_server_time(body: &JsonValue, raw: &str) -> (r: Result<u64, GateError>)
    ensures
        r matches Ok(t) ==> spec_server_time(*body) == Some(t),
        r is Err <==> spec_server_time(*body) is None,
        r matches Err(e) ==> (e matches GateError::UnexpectedResponseShape(p) && p@ == raw@),
{
    let data = match body.get("data") {
        Some(d) => d,
        None => {
            return Err(GateError::shape(raw));
        },
    };
    let xs = match data.as_arr() {
        Some(xs) => xs,
        None => {
            return Err(GateError::shape(raw));
        },
    };
    if xs.len() == 0 {
        return Err(GateError::shape(raw));
    }
    let ts = match crate::json::field_str(&xs[0], "ts") {
        Some(s) => s,
        None => {
            return Err(GateError::shape(raw));
        },
    };
    match crate::num::parse_u64(ts.as_str().as_bytes()) {
        Some(t) => Ok(t),
        None => Err(GateError::shape(raw)),
    }
}

/// The four `OK-ACCESS-*` identity headers.
pub open spec fn spec_auth_headers(
    cfg: OkexConfig,
    sig: Seq<char>,
    ts: Seq<char>,
    hs: Seq<(String, String)>,
) -> bool {
    hs.len() >= 4 && hs[0].0@ == "OK-ACCESS-KEY"@ && hs[0].1@ == cfg.access_id@ && hs[1].0@
        == "OK-ACCESS-SIGN"@ && hs[1].1@ == sig && hs[2].0@ == "OK-ACCESS-TIMESTAMP"@ && hs[2].1@
        == ts && hs[3].0@ == "OK-ACCESS-PASSPHRASE"@ && hs[3].1@ == cfg.passphrase@
}

/// Build the four identity headers.
fn auth_headers(cfg: &OkexConfig, sig: &String, ts: &str) -> (r: Vec<(String, String)>)
    ensures
        spec_auth_headers(*cfg, sig@, ts@, r@),
        r@.len() == 4,
{
    let mut hs: Vec<(String, String)> = Vec::new();
    hs.push((String::from_str("OK-ACCESS-KEY"), cfg.access_id.clone()));
    hs.push((String::from_str("OK-ACCESS-SIGN"), sig.clone()));
    hs.push((String::from_str("OK-ACCESS-TIMESTAMP"), String::from_str(ts)));
    hs.push((String::from_str("OK-ACCESS-PASSPHRASE"), cfg.passphrase.clone()));
    hs
}

/// The balances path with its in-path query, `?ccy=SYM,CUR` upper-cased.
pub open spec fn spec_balances_path(ex: Exchange) -> Seq<char> {
    "/api/v5/asset/balances?ccy="@ + chars_of_bytes(ascii_upper(bytes_of(ex.symbol@))) + ","@
        + chars_of_bytes(ascii_upper(bytes_of(ex.currency@)))
}

/// The signed funding-account balance request.  The query rides in the
/// signed path; the body is empty.
pub fn account_info(ex: &Exchange, cfg: &OkexConfig, time_str: &str) -> (r: HttpRequest)
    requires
        ex.wf(),
    ensures
        r.method == HttpMethod::GET,
        r.protocol@ == ex.protocol@,
        r.host@ == ex.host@,
        r.path@ == spec_balances_path(*ex),
        r.query@.len() == 0,
        r.body@.len() == 0,
        spec_auth_headers(
            *cfg,
            okex_signature(cfg.secret_key@, time_str@, HttpMethod::GET, spec_balances_path(*ex), Seq::empty()),
            time_str@,
            r.headers@,
        ),
{
    let mut path = String::from_str("/api/v5/asset/balances?ccy=");
    proof {
        crate::codec::lemma_ascii_chars_bytes(ex.symbol@);
        crate::codec::lemma_ascii_chars_bytes(ex.currency@);
        crate::codec::lemma_ascii_upper_ascii(bytes_of(ex.symbol@));
        crate::codec::lemma_ascii_upper_ascii(bytes_of(ex.currency@));
    }
    let sym = ascii_string(to_ascii_upper(str_bytes(ex.symbol.as_str()).as_slice()).as_slice());
    let cur = ascii_string(to_ascii_upper(str_bytes(ex.currency.as_str()).as_slice()).as_slice());
    path.append(sym.as_str());
    path.append(",");
    path.append(cur.as_str());
    proof {
        assert(path@ =~= spec_balances_path(*ex));
    }
    let empty_items: Vec<(String, String)> = Vec::new();
    proof {
        assert(bview(empty_items@) =~= Seq::<(Seq<char>, Seq<char>)>::empty());
        assert(okex_body_of(Seq::empty(), false) =~= Seq::<char>::empty());
    }
    let (sig, _body) = build_okex_sign(cfg, HttpMethod::GET, path.as_str(), &empty_items, false, time_str);
    let headers = auth_headers(cfg, &sig, time_str);
    HttpRequest {
        method: HttpMethod::GET,
        protocol: ex.protocol.clone(),
        host: ex.host.clone(),
        path,
        query: String::new(),
        body: String::new(),
        headers,
    }
}

/// The deprecated margin-availability path for the pair.
pub open spec fn spec_loan_path(ex: Exchange) -> Seq<char> {
    "/api/margin/v3/accounts/"@ + chars_of_bytes(ascii_upper(bytes_of(ex.symbol@))) + "-"@
        + chars_of_bytes(ascii_upper(bytes_of(ex.currency@))) + "/availability"@
}

/// The signed margin-availability request, against an endpoint OKEX has
/// deprecated.
pub fn loan_info(ex: &Exchange, cfg: &OkexConfig, time_str: &str) -> (r: HttpRequest)
    requires
        ex.wf(),
    ensures
        r.method == HttpMethod::GET,
        r.protocol@ == ex.protocol@,
        r.host@ == ex.host@,
        r.path@ == spec_loan_path(*ex),
        r.query@.len() == 0,
        r.body@.len() == 0,
        spec_auth_headers(
            *cfg,
            okex_signature(cfg.secret_key@, time_str@, HttpMethod::GET, spec_loan_path(*ex), Seq::empty()),
            time_str@,
            r.headers@,
        ),
{
    let mut path = String::from_str("/api/margin/v3/accounts/");
    proof {
        crate::codec::lemma_ascii_chars_bytes(ex.symbol@);
        crate::codec::lemma_ascii_chars_bytes(ex.currency@);
        crate::codec::lemma_ascii_upper_ascii(bytes_of(ex.symbol@));
        crate::codec::lemma_ascii_upper_ascii(bytes_of(ex.currency@));
    }
    let sym = ascii_string(to_ascii_upper(str_bytes(ex.symbol.as_str()).as_slice()).as_slice());
    let cur = ascii_string(to_ascii_upper(str_bytes(ex.currency.as_str()).as_slice()).as_slice());
    path.append(sym.as_str());
    path.append("-");
    path.append(cur.as_str());
    path.append("/availability");
    proof {
        assert(path@ =~= spec_loan_path(*ex));
    }
    let empty_items: Vec<(String, String)> = Vec::new();
    proof {
        assert(bview(empty_items@) =~= Seq::<(Seq<char>, Seq<char>)>::empty());
        assert(okex_body_of(Seq::empty(), false) =~= Seq::<char>::empty());
    }
    let (sig, _body) = build_okex_sign(cfg, HttpMethod::GET, path.as_str(), &empty_items, false, time_str);
    let headers = auth_headers(cfg, &sig, time_str);
    HttpRequest {
        method: HttpMethod::GET,
        protocol: ex.protocol.clone(),
        host: ex.host.clone(),
        path,
        query: String::new(),
        body: String::new(),
        headers,
    }
}

/// The signed asset-listing request used to look the withdrawal fee up.
pub fn withdraw_fee_request(ex: &Exchange, cfg: &OkexConfig, time_str: &str) -> (r: HttpRequest)
    ensures
        r.method == HttpMethod::GET,
        r.protocol@ == ex.protocol@,
        r.host@ == ex.host@,
        r.path@ == "/api/v5/asset/currencies"@,
        r.query@.len() == 0,
        r.body@.len() == 0,
        spec_auth_headers(
            *cfg,
            okex_signature(cfg.secret_key@, time_str@, HttpMethod::GET, "/api/v5/asset/currencies"@, Seq::empty()),
            time_str@,
            r.headers@,
        ),
{
    let empty_items: Vec<(String, String)> = Vec::new();
    proof {
        assert(bview(empty_items@) =~= Seq::<(Seq<char>, Seq<char>)>::empty());
        assert(okex_body_of(Seq::empty(), false) =~= Seq::<char>::empty());
    }
    let (sig, _body) = build_okex_sign(
        cfg,
        HttpMethod::GET,
        "/api/v5/asset/currencies",
        &empty_items,
        false,
        time_str,
    );
    let headers = auth_headers(cfg, &sig, time_str);
    HttpRequest {
        method: HttpMethod::GET,
        protocol: ex.protocol.clone(),
        host: ex.host.clone(),
        path: String::from_str("/api/v5/asset/currencies"),
        query: String::new(),
        body: String::new(),
        headers,
    }
}

/// Whether the envelope reports success: `code == "0"`.
pub open spec fn spec_code_ok(body: JsonValue) -> bool {
    match crate::json::spec_field_str(body, bytes_of("code"@)) {
        Some(s) => bytes_of(s@) == bytes_of("0"@),
        None => false,
    }
}

/// Whether the envelope reports success.
pub fn code_ok(body: &JsonValue) -> (r: bool)
    ensures
        r == spec_code_ok(*body),
{
    match crate::json::field_str(body, "code") {
        Some(s) => crate::codec::str_bytes_eq(s.as_str(), "0"),
        None => false,
    }
}

/// The withdrawal chain OKEX expects: its TRC20 alias for USDT, the
/// asset's own ticker otherwise.
pub open spec fn spec_okex_chain(asset: Seq<char>) -> Seq<char> {
    if chars_of_bytes(ascii_upper(bytes_of(asset))) == "USDT"@ {
        "USDT-TRC20"@
    } else {
        asset
    }
}

/// The `minFee` of the asset-listing entry for this asset and chain.
pub open spec fn spec_min_fee(body: JsonValue, ccy: Seq<u8>, chain: Seq<u8>) -> Option<String> {
    match spec_get(body, bytes_of("data"@)) {
        Some(d) => match spec_as_arr(d) {
            Some(xs) => match spec_find2(xs, bytes_of("ccy"@), ccy, bytes_of("chain"@), chain) {
                Some(e) => crate::json::spec_field_str(e, bytes_of("minFee"@)),
                None => None,
            },
            None => None,
        },
        None => None,
    }
}

/// Read the live minimum withdrawal fee for an asset and chain out of the
/// asset listing.
pub fn withdraw_fee_response(body: &JsonValue, ccy: &[u8], chain: &[u8], raw: &str) -> (r: Result<
    String,
    GateError,
>)
    ensures
        !spec_code_ok(*body) ==> (r matches Err(e) && e matches GateError::ExchangeRejected {
            exchange,
            payload,
        } && exchange == Exchanges::OKEX && payload@ == raw@),
        spec_code_ok(*body) && spec_min_fee(*body, ccy@, chain@) is None ==> (r matches Err(e)
            && e matches GateError::UnexpectedResponseShape(p) && p@ == raw@),
        spec_min_fee(*body, ccy@, chain@) matches Some(s) ==> (spec_code_ok(*body) ==> (
        r matches Ok(t) && t@ == s@)),
{
    if !code_ok(body) {
        return Err(GateError::rejected(Exchanges::OKEX, raw));
    }
    let data = match body.get("data") {
        Some(d) => d,
        None => {
            return Err(GateError::shape(raw));
        },
    };
    let xs = match data.as_arr() {
        Some(xs) => xs,
        None => {
            return Err(GateError::shape(raw));
        },
    };
    let entry = match crate::json::find_by_field2(xs, "ccy", ccy, "chain", chain) {
        Some(e) => e,
        None => {
            return Err(GateError::shape(raw));
        },
    };
    match crate::json::field_str(entry, "minFee") {
        Some(s) => Ok(s.clone()),
        None => Err(GateError::shape(raw)),
    }
}

/// The body-parameter list of a withdrawal.
pub open spec fn spec_withdraw_items(
    asset: Seq<char>,
    address: Seq<char>,
    amount: Amount,
    fee: Seq<char>,
    trade_pwd: Seq<char>,
) -> Seq<(Seq<char>, Seq<char>)> {
    seq![
        ("amt"@, chars_of_bytes(amount_rendered(amount))),
        ("ccy"@, chars_of_bytes(ascii_upper(bytes_of(asset)))),
        ("chain"@, spec_okex_chain(asset)),
        ("dest"@, "4"@),
        ("toAddr"@, address),
        ("pwd"@, trade_pwd),
        ("fee"@, fee),
    ]
}

/// The signed withdrawal, `POST /api/v5/asset/withdrawal`, to an external
/// address (`dest` 4), with the looked-up fee passed through unmodified.
pub fn withdraw(
    ex: &Exchange,
    cfg: &OkexConfig,
    time_str: &str,
    asset: &str,
    address: &str,
    amount: &Amount,
    fee: &str,
) -> (r: Result<HttpRequest, GateError>)
    requires
        amount.wf(),
        vstd::utf8::is_ascii_chars(asset@),
    ensures
        r is Ok <==> asset@.len() > 0 && address@.len() > 0 && trade_pwd_ok(*cfg) && fee@.len()
            > 0,
        r matches Ok(q) ==> ({
            &&& q.method == HttpMethod::POST
            &&& q.protocol@ == ex.protocol@
            &&& q.host@ == ex.host@
            &&& q.path@ == "/api/v5/asset/withdrawal"@
            &&& q.query@.len() == 0
            &&& q.body@ == okex_body_of(
                spec_withdraw_items(asset@, address@, *amount, fee@, cfg.trade_pwd@),
                false,
            )
            &&& spec_auth_headers(
                *cfg,
                okex_signature(
                    cfg.secret_key@,
                    time_str@,
                    HttpMethod::POST,
                    "/api/v5/asset/withdrawal"@,
                    q.body@,
                ),
                time_str@,
                q.headers@,
            )
            &&& q.headers@.len() == 5
            &&& q.headers@[4].0@ == "Content-Type"@
            &&& q.headers@[4].1@ == "application/json; charset=utf-8"@
        }),
        r matches Err(e) ==> e is UnexpectedResponseShape,
{
    if asset.is_empty() || address.is_empty() || cfg.trade_pwd.as_str().is_empty()
        || fee.is_empty() {
        return Err(GateError::shape("withdrawal field empty"));
    }
    proof {
        crate::amount::lemma_amount_rendered_ascii(*amount);
        crate::codec::lemma_ascii_chars_bytes(asset@);
        crate::codec::lemma_ascii_upper_ascii(bytes_of(asset@));
    }
    let amt = ascii_string(amount_render(amount).as_slice());
    let ccy = ascii_string(to_ascii_upper(str_bytes(asset).as_slice()).as_slice());
    let chain = if crate::codec::bytes_eq(
        to_ascii_upper(str_bytes(asset).as_slice()).as_slice(),
        str_bytes("USDT").as_slice(),
    ) {
        proof {
            reveal_strlit("USDT");
            crate::codec::lemma_ascii_chars_bytes("USDT"@);
            assert(chars_of_bytes(ascii_upper(bytes_of(asset@))) =~= "USDT"@);
        }
        String::from_str(crate::config::okex_usdt_withdraw_chain())
    } else {
        proof {
            if chars_of_bytes(ascii_upper(bytes_of(asset@))) == "USDT"@ {
                reveal_strlit("USDT");
                crate::codec::lemma_ascii_chars_bytes("USDT"@);
                assert(ascii_upper(bytes_of(asset@)) =~= bytes_of("USDT"@));
            }
        }
        String::from_str(asset)
    };
    let mut items: Vec<(String, String)> = Vec::new();
    items.push((String::from_str("amt"), amt));
    items.push((String::from_str("ccy"), ccy));
    items.push((String::from_str("chain"), chain));
    items.push((String::from_str("dest"), String::from_str("4")));
    items.push((String::from_str("toAddr"), String::from_str(address)));
    items.push((String::from_str("pwd"), cfg.trade_pwd.clone()));
    items.push((String::from_str("fee"), String::from_str(fee)));
    proof {
        assert(bview(items@) =~~= spec_withdraw_items(
            asset@,
            address@,
            *amount,
            fee@,
            cfg.trade_pwd@,
        ));
        lemma_withdraw_values_nonempty(asset@, address@, *amount, fee@, cfg.trade_pwd@);
    }
    let (sig, body) = build_okex_sign(
        cfg,
        HttpMethod::POST,
        "/api/v5/asset/withdrawal",
        &items,
        false,
        time_str,
    );
    let mut headers = auth_headers(cfg, &sig, time_str);
    headers.push(
        (String::from_str("Content-Type"), String::from_str("application/json; charset=utf-8")),
    );
    Ok(
        HttpRequest {
            method: HttpMethod::POST,
            protocol: ex.protocol.clone(),
            host: ex.host.clone(),
            path: String::from_str("/api/v5/asset/withdrawal"),
            query: String::new(),
            body,
            headers,
        },
    )
}

/// A non-empty trade password, needed as a body value.
pub open spec fn trade_pwd_ok(cfg: OkexConfig) -> bool {
    cfg.trade_pwd@.len() > 0
}

/// Withdrawal body values are non-empty when the checked fields are.
proof fn lemma_withdraw_values_nonempty(
    asset: Seq<char>,
    address: Seq<char>,
    amount: Amount,
    fee: Seq<char>,
    trade_pwd: Seq<char>,
)
    requires
        vstd::utf8::is_ascii_chars(asset),
        asset.len() > 0,
        address.len() > 0,
        fee.len() > 0,
        trade_pwd.len() > 0,
    ensures
        values_nonempty(spec_withdraw_items(asset, address, amount, fee, trade_pwd)),
{
    crate::amount::lemma_amount_rendered_nonempty(amount);
    reveal_strlit("4");
    crate::codec::lemma_ascii_chars_bytes(asset);
    crate::codec::lemma_upper_len(bytes_of(asset));
    assert forall|i: int|
        0 <= i < spec_withdraw_items(asset, address, amount, fee, trade_pwd).len() implies (
    #[trigger] spec_withdraw_items(asset, address, amount, fee, trade_pwd)[i].1).len() > 0 by {
        if i == 2 {
            if chars_of_bytes(ascii_upper(bytes_of(asset))) == "USDT"@ {
                reveal_strlit("USDT-TRC20");
            }
        }
    }
}

/// The `wdId` of the first data entry of a withdrawal response.
pub open spec fn spec_wd_id(body: JsonValue) -> Option<String> {
    match spec_get(body, bytes_of("data"@)) {
        Some(d) => match spec_as_arr(d) {
            Some(xs) => if xs.len() == 0 {
                None
            } else {
                crate::json::spec_field_str(xs[0], bytes_of("wdId"@))
            },
            None => None,
        },
        None => None,
    }
}

/// Normalize a withdrawal response: the exchange-assigned request id.
pub fn withdraw_response(body: &JsonValue, raw: &str) -> (r: Result<String, GateError>)
    ensures
        !spec_code_ok(*body) ==> (r matches Err(e) && e matches GateError::ExchangeRejected {
            exchange,
            payload,
        } && exchange == Exchanges::OKEX && payload@ == raw@),
        spec_code_ok(*body) && spec_wd_id(*body) is None ==> (r matches Err(e)
            && e matches GateError::UnexpectedResponseShape(p) && p@ == raw@),
        spec_wd_id(*body) matches Some(s) ==> (spec_code_ok(*body) ==> (r matches Ok(t) && t@
            == s@)),
{
    if !code_ok(body) {
        return Err(GateError::rejected(Exchanges::OKEX, raw));
    }
    let data = match body.get("data") {
        Some(d) => d,
        None => {
            return Err(GateError::shape(raw));
        },
    };
    let xs = match data.as_arr() {
        Some(xs) => xs,
        None => {
            return Err(GateError::shape(raw));
        },
    };
    if xs.len() == 0 {
        return Err(GateError::shape(raw));
    }
    match crate::json::field_str(&xs[0], "wdId") {
        Some(s) => Ok(s.clone()),
        None => Err(GateError::shape(raw)),
    }
}

/// The available/frozen balances of one currency, when its entry exists.
pub open spec fn spec_okex_entry(body: JsonValue, want: Seq<u8>) -> Option<JsonValue> {
    match spec_get(body, bytes_of("data"@)) {
        Some(d) => match spec_as_arr(d) {
            Some(xs) => crate::json::spec_find(xs, bytes_of("ccy"@), want),
            None => None,
        },
        None => None,
    }
}

/// The parsed balance pair of an entry.
pub open spec fn spec_okex_pair(e: JsonValue) -> Option<(Amount, Amount)> {
    match (
        crate::json::spec_field_amount(e, bytes_of("availBal"@)),
        crate::json::spec_field_amount(e, bytes_of("frozenBal"@)),
    ) {
        (Some(a), Some(f)) => Some((a, f)),
        _ => None,
    }
}

/// Read one currency's balances; a missing entry is a zero balance, a
/// malformed one is an error.
fn okex_balance(body: &JsonValue, want: &[u8], raw: &str) -> (r: Result<(Amount, Amount), GateError>)
    ensures
        r matches Ok(p) ==> (match spec_okex_entry(*body, want@) {
            Some(e) => spec_okex_pair(e) == Some(p),
            None => p == (Amount { mantissa: 0, scale: 0 }, Amount { mantissa: 0, scale: 0 }),
        }),
        r is Err <==> (spec_get(*body, bytes_of("data"@)) is None || spec_as_arr(
            spec_get(*body, bytes_of("data"@))->0,
        ) is None || (spec_okex_entry(*body, want@) matches Some(e) && spec_okex_pair(e) is None)),
        r matches Err(e) ==> (e matches GateError::UnexpectedResponseShape(p) && p@ == raw@),
{
    let data = match body.get("data") {
        Some(d) => d,
        None => {
            return Err(GateError::shape(raw));
        },
    };
    let xs = match data.as_arr() {
        Some(xs) => xs,
        None => {
            return Err(GateError::shape(raw));
        },
    };
    match crate::json::find_by_field(xs, "ccy", want) {
        None => Ok((Amount { mantissa: 0, scale: 0 }, Amount { mantissa: 0, scale: 0 })),
        Some(e) => {
            let a = crate::json::field_amount(e, "availBal");
            let f = crate::json::field_amount(e, "frozenBal");
            match (a, f) {
                (Some(aa), Some(ff)) => Ok((aa, ff)),
                _ => Err(GateError::shape(raw)),
            }
        },
    }
}

/// Normalize a funding-balance response.  A currency without an entry has
/// zero balances; a malformed entry is an error.
pub fn account_info_response(ex: &Exchange, body: &JsonValue, raw: &str) -> (r: Result<
    AccountInfo,
    GateError,
>)
    requires
        ex.wf(),
    ensures
        !spec_code_ok(*body) ==> (r matches Err(e) && e matches GateError::ExchangeRejected {
            exchange,
            payload,
        } && exchange == Exchanges::OKEX && payload@ == raw@),
        spec_code_ok(*body) ==> (r matches Ok(a) ==> ({
            let sym = ascii_upper(bytes_of(ex.symbol@));
            let cur = ascii_upper(bytes_of(ex.currency@));
            &&& (match spec_okex_entry(*body, sym) {
                Some(e) => spec_okex_pair(e) == Some((a.available_symbol, a.frozen_symbol)),
                None => a.available_symbol == (Amount { mantissa: 0, scale: 0 })
                    && a.frozen_symbol == (Amount { mantissa: 0, scale: 0 }),
            })
            &&& (match spec_okex_entry(*body, cur) {
                Some(e) => spec_okex_pair(e) == Some((a.available_currency, a.frozen_currency)),
                None => a.available_currency == (Amount { mantissa: 0, scale: 0 })
                    && a.frozen_currency == (Amount { mantissa: 0, scale: 0 }),
            })
        })),
        spec_code_ok(*body) ==> (r matches Err(e) ==> (e
            matches GateError::UnexpectedResponseShape(p) && p@ == raw@)),
        spec_code_ok(*body) ==> (r is Err <==> (spec_get(*body, bytes_of("data"@)) is None
            || spec_as_arr(spec_get(*body, bytes_of("data"@))->0) is None || (spec_okex_entry(
            *body,
            ascii_upper(bytes_of(ex.symbol@)),
        ) matches Some(e) && spec_okex_pair(e) is None) || (spec_okex_entry(
            *body,
            ascii_upper(bytes_of(ex.currency@)),
        ) matches Some(e2) && spec_okex_pair(e2) is None))),
{
    if !code_ok(body) {
        return Err(GateError::rejected(Exchanges::OKEX, raw));
    }
    let sym = to_ascii_upper(str_bytes(ex.symbol.as_str()).as_slice());
    let cur = to_ascii_upper(str_bytes(ex.currency.as_str()).as_slice());
    let sp = match okex_balance(body, sym.as_slice(), raw) {
        Ok(p) => p,
        Err(e) => {
            return Err(e);
        },
    };
    let cp = match okex_balance(body, cur.as_slice(), raw) {
        Ok(p) => p,
        Err(e) => {
            return Err(e);
        },
    };
    Ok(
        AccountInfo {
            available_symbol: sp.0,
            frozen_symbol: sp.1,
            available_currency: cp.0,
            frozen_currency: cp.1,
        },
    )
}

} // verus!
