//! Withdrawal chain selection and fee policy, plus the fixed-point
//! amounts they rest on.

use exgate::amount::{amount_parse, amount_render, amount_sub_units, Amount};
use exgate::config::{BinanceConfig, HuobiConfig, OkexConfig};
use exgate::json::JsonValue;
use exgate::exchange::{binance, huobi, okex, Exchange};
use exgate::types::Exchanges;

fn ex(name: Exchanges, host: &str) -> Exchange {
    Exchange {
        name,
        symbol: String::from("crv"),
        currency: String::from("usdt"),
        host: String::from(host),
        protocol: String::from("https"),
        config: String::from("profile"),
    }
}

#[test]
fn amount_parse_and_render_round_trip() {
    let a = amount_parse(b"123.45").unwrap();
    assert_eq!(a, Amount { mantissa: 12345, scale: 2 });
    assert_eq!(amount_render(&a), b"123.45".to_vec());
    let b = amount_parse(b"10").unwrap();
    assert_eq!(b, Amount { mantissa: 10, scale: 0 });
    assert_eq!(amount_render(&b), b"10".to_vec());
    let c = amount_parse(b"0.050").unwrap();
    assert_eq!(c, Amount { mantissa: 50, scale: 3 });
    assert_eq!(amount_render(&c), b"0.050".to_vec());
}

#[test]
fn amount_parse_rejects_malformed() {
    assert!(amount_parse(b"").is_none());
    assert!(amount_parse(b"1e5").is_none());
    assert!(amount_parse(b".5").is_none());
    assert!(amount_parse(b"5.").is_none());
    assert!(amount_parse(b"1.2.3").is_none());
    assert!(amount_parse(b"99999999999999999999999").is_none());
}

#[test]
fn amount_sub_units_is_exact() {
    let a = Amount { mantissa: 105, scale: 1 };
    let n = amount_sub_units(&a, 1).unwrap();
    assert_eq!(n, Amount { mantissa: 95, scale: 1 });
    assert!(amount_sub_units(&Amount { mantissa: 5, scale: 1 }, 1).is_none());
}

#[test]
fn huobi_fee_is_one_usdt_only() {
    assert_eq!(huobi::huobi_withdraw_fee("usdt"), 1);
    assert_eq!(huobi::huobi_withdraw_fee("btc"), 0);
}

#[test]
fn binance_withdraw_selects_trx_for_usdt() {
    let cfg = BinanceConfig {
        access_id: String::from("ak"),
        secret_key: String::from("sec"),
    };
    let amount = Amount { mantissa: 105, scale: 1 };
    let q = binance::withdraw(
        &ex(Exchanges::BINANCE, "api.binance.com"),
        &cfg,
        "1600000000000",
        "usdt",
        "addr1",
        &amount,
    );
    assert!(q.query.starts_with("coin=usdt&address=addr1&network=trx&amount=10.5"));
    let q2 = binance::withdraw(
        &ex(Exchanges::BINANCE, "api.binance.com"),
        &cfg,
        "1600000000000",
        "btc",
        "addr1",
        &amount,
    );
    assert!(q2.query.starts_with("coin=btc&address=addr1&network=btc&amount=10.5"));
}

#[test]
fn huobi_withdraw_subtracts_fee_and_uses_trc20_alias() {
    let cfg = HuobiConfig {
        access_id: String::from("ak"),
        secret_key: String::from("sec"),
        account_id: String::from("123"),
        signature_method: String::from("HmacSHA256"),
        signature_version: String::from("2"),
    };
    let amount = Amount { mantissa: 105, scale: 1 };
    let q = huobi::withdraw(
        &ex(Exchanges::HUOBI, "api.huobi.pro"),
        &cfg,
        "2021-06-01T03:15:00",
        "usdt",
        "addr1",
        &amount,
    )
    .unwrap();
    assert_eq!(
        q.body,
        "{\"address\":\"addr1\",\"amount\":\"9.5\",\"chain\":\"trc20usdt\",\"currency\":\"usdt\",\"fee\":\"1\"}"
    );
    let q2 = huobi::withdraw(
        &ex(Exchanges::HUOBI, "api.huobi.pro"),
        &cfg,
        "2021-06-01T03:15:00",
        "btc",
        "addr1",
        &amount,
    )
    .unwrap();
    assert_eq!(
        q2.body,
        "{\"address\":\"addr1\",\"amount\":\"10.5\",\"chain\":\"btc\",\"currency\":\"btc\",\"fee\":\"0\"}"
    );
}

#[test]
fn huobi_withdraw_below_fee_is_an_error() {
    let cfg = HuobiConfig {
        access_id: String::from("ak"),
        secret_key: String::from("sec"),
        account_id: String::from("123"),
        signature_method: String::from("HmacSHA256"),
        signature_version: String::from("2"),
    };
    let amount = Amount { mantissa: 5, scale: 1 };
    let r = huobi::withdraw(
        &ex(Exchanges::HUOBI, "api.huobi.pro"),
        &cfg,
        "2021-06-01T03:15:00",
        "usdt",
        "addr1",
        &amount,
    );
    assert!(r.is_err());
}

#[test]
fn okex_withdraw_uses_its_own_trc20_alias() {
    let cfg = OkexConfig {
        access_id: String::from("ak"),
        secret_key: String::from("sec"),
        trade_pwd: String::from("pw"),
        passphrase: String::from("pp"),
    };
    let amount = Amount { mantissa: 105, scale: 1 };
    let q = okex::withdraw(
        &ex(Exchanges::OKEX, "www.okex.com"),
        &cfg,
        "2021-06-01T03:15:00.123Z",
        "usdt",
        "addr1",
        &amount,
        "0.8",
    )
    .unwrap();
    assert_eq!(
        q.body,
        "{\"amt\":\"10.5\",\"ccy\":\"USDT\",\"chain\":\"USDT-TRC20\",\"dest\":\"4\",\"toAddr\":\"addr1\",\"pwd\":\"pw\",\"fee\":\"0.8\"}"
    );
    let q2 = okex::withdraw(
        &ex(Exchanges::OKEX, "www.okex.com"),
        &cfg,
        "2021-06-01T03:15:00.123Z",
        "btc",
        "addr1",
        &amount,
        "0.0005",
    )
    .unwrap();
    assert!(q2.body.contains("\"ccy\":\"BTC\",\"chain\":\"btc\""));
}

#[test]
fn okex_fee_lookup_matches_asset_and_chain() {
    let entry = |ccy: &str, chain: &str, fee: &str| {
        JsonValue::Obj(vec![
            (String::from("ccy"), JsonValue::Str(String::from(ccy))),
            (String::from("chain"), JsonValue::Str(String::from(chain))),
            (String::from("minFee"), JsonValue::Str(String::from(fee))),
        ])
    };
    let body = JsonValue::Obj(vec![
        (String::from("code"), JsonValue::Str(String::from("0"))),
        (
            String::from("data"),
            JsonValue::Arr(vec![
                entry("USDT", "USDT-ERC20", "3.2"),
                entry("USDT", "USDT-TRC20", "0.8"),
            ]),
        ),
    ]);
    let fee = okex::withdraw_fee_response(&body, b"USDT", b"USDT-TRC20", "raw").unwrap();
    assert_eq!(fee, "0.8");
}
