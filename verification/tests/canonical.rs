//! Canonical strings and signatures against precomputed reference values.

use exgate::amount::Amount;
use exgate::config::{BinanceConfig, HuobiConfig, OkexConfig};
use exgate::exchange::{binance, huobi, okex, Exchange};
use exgate::query::{encode_query, param, sort_params, Param};
use exgate::sign::{hmac_sha256_base64, hmac_sha256_hex};
use exgate::types::{Exchanges, HttpMethod};

fn binance_cfg() -> BinanceConfig {
    BinanceConfig {
        access_id: String::from("ak"),
        secret_key: String::from("sec"),
    }
}

fn huobi_cfg() -> HuobiConfig {
    HuobiConfig {
        access_id: String::from("ak"),
        secret_key: String::from("sec"),
        account_id: String::from("123"),
        signature_method: String::from("HmacSHA256"),
        signature_version: String::from("2"),
    }
}

fn okex_cfg() -> OkexConfig {
    OkexConfig {
        access_id: String::from("ak"),
        secret_key: String::from("sec"),
        trade_pwd: String::from("pw"),
        passphrase: String::from("pp"),
    }
}

#[test]
fn binance_signed_query_fixture() {
    let q = binance::build_binance_sign(&binance_cfg(), Vec::new(), Vec::new(), "1600000000000");
    assert_eq!(
        q,
        "recvWindow=5000&timestamp=1600000000000&signature=7fa53b0f0e3d611d8e72ec8767dd5fe712a20814dd195333579acc89b6409a80"
    );
}

#[test]
fn hmac_sha256_hex_fixture() {
    let sig = hmac_sha256_hex(b"key", b"canonical");
    assert_eq!(
        String::from_utf8(sig).unwrap(),
        "71cddc2b1f33de4673246f201945c5a431b406b9c6b2719811188cf11fb008f7"
    );
}

#[test]
fn hmac_sha256_base64_fixture() {
    let sig = hmac_sha256_base64(b"key", b"canonical");
    assert_eq!(
        String::from_utf8(sig).unwrap(),
        "cc3cKx8z3kZzJG8gGUXFpDG0BrnGsnGYERiM8R+wCPc="
    );
}

#[test]
fn huobi_signed_query_fixture() {
    let q = huobi::build_huobi_sign(
        &huobi_cfg(),
        "GET",
        "api.huobi.pro",
        "/v1/account/accounts/123/balance",
        Vec::new(),
        "2021-06-01T03:15:00",
    );
    assert_eq!(
        q,
        "AccessKeyId=ak&SignatureMethod=HmacSHA256&SignatureVersion=2&Timestamp=2021-06-01T03%3A15%3A00&Signature=Tv8tWAn1gntcvn7MbBeKXKnJoAEQOD4UBp%2FNYsxqP8Y%3D"
    );
}

#[test]
fn huobi_param_sorting_lexicographic() {
    let params: Vec<Param> = vec![
        param("b", "2"),
        param("a", "1"),
        param("c", "3"),
        param("AccessKeyId", "ak"),
        param("SignatureMethod", "HmacSHA256"),
        param("SignatureVersion", "2"),
        param("Timestamp", "2021-06-01T03:15:00"),
    ];
    let sorted = sort_params(params);
    let qs = encode_query(&sorted);
    assert_eq!(
        String::from_utf8(qs).unwrap(),
        "AccessKeyId=ak&SignatureMethod=HmacSHA256&SignatureVersion=2&Timestamp=2021-06-01T03%3A15%3A00&a=1&b=2&c=3"
    );
}

#[test]
fn okex_body_and_signature_fixture() {
    let items = vec![
        (String::from("amt"), String::from("1.5")),
        (String::from("ccy"), String::from("USDT")),
    ];
    let (sig, body) = okex::build_okex_sign(
        &okex_cfg(),
        HttpMethod::POST,
        "/api/v5/asset/withdrawal",
        &items,
        false,
        "2021-06-01T03:15:00.123Z",
    );
    assert_eq!(body, "{\"amt\":\"1.5\",\"ccy\":\"USDT\"}");
    assert_eq!(sig, "La65GDwmnxJdWrvGx08nKE7+x29Zc+WH/a6dicGwUEs=");
}

#[test]
fn okex_body_inlines_arrays() {
    let items = vec![(String::from("x"), String::from("[1,2]"))];
    assert_eq!(okex::okex_body(&items, false), "{\"x\":[1,2]}");
    let bare = vec![(String::from(""), String::from("[1,2]"))];
    assert_eq!(okex::okex_body(&bare, true), "[1,2]");
}

#[test]
fn huobi_time_format() {
    let s = huobi::time_string(1622517300123).unwrap();
    assert_eq!(s, "2021-06-01T03:15:00");
}

#[test]
fn okex_time_format() {
    let s = okex::time_string(1622517300123).unwrap();
    assert_eq!(s, "2021-06-01T03:15:00.123Z");
}

#[test]
fn binance_depth_request_shape() {
    let ex = Exchange {
        name: Exchanges::BINANCE,
        symbol: String::from("crv"),
        currency: String::from("usdt"),
        host: String::from("api.binance.com"),
        protocol: String::from("https"),
        config: String::from("binance.profile"),
    };
    let q = binance::depth(&ex);
    assert_eq!(q.path, "/api/v3/depth");
    assert_eq!(q.query, "symbol=CRVUSDT&limit=5");
    assert_eq!(
        q.url(),
        "https://api.binance.com/api/v3/depth?symbol=CRVUSDT&limit=5"
    );
}

#[test]
fn binance_create_order_params_signed() {
    let ex = Exchange {
        name: Exchanges::BINANCE,
        symbol: String::from("crv"),
        currency: String::from("usdt"),
        host: String::from("api.binance.com"),
        protocol: String::from("https"),
        config: String::from("binance.profile"),
    };
    let price = Amount { mantissa: 25, scale: 1 };
    let volume = Amount { mantissa: 10, scale: 0 };
    let q = binance::create_order(
        &ex,
        &binance_cfg(),
        "1600000000000",
        exgate::types::OrderSide::BUY,
        &price,
        &volume,
    );
    assert!(q
        .query
        .starts_with("symbol=CRVUSDT&side=BUY&type=LIMIT&timeInForce=GTC&quantity=10&price=2.5"));
    assert!(q.query.contains("&signature="));
}
