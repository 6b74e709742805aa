//! Normalizer behavior on synthetic response bodies.

use exgate::exchange::{binance, huobi, okex, Exchange};
use exgate::json::JsonValue;
use exgate::types::{Exchanges, GateError, OrderSide, OrderStatus};

fn ex_binance() -> Exchange {
    Exchange {
        name: Exchanges::BINANCE,
        symbol: String::from("crv"),
        currency: String::from("usdt"),
        host: String::from("api.binance.com"),
        protocol: String::from("https"),
        config: String::from("binance.profile"),
    }
}

fn obj(fields: Vec<(&str, JsonValue)>) -> JsonValue {
    JsonValue::Obj(
        fields
            .into_iter()
            .map(|(k, v)| (String::from(k), v))
            .collect(),
    )
}

fn s(v: &str) -> JsonValue {
    JsonValue::Str(String::from(v))
}

fn balance_entry(asset: &str, free: &str, locked: &str) -> JsonValue {
    obj(vec![("asset", s(asset)), ("free", s(free)), ("locked", s(locked))])
}

#[test]
fn binance_account_round_trip() {
    let body = obj(vec![(
        "balances",
        JsonValue::Arr(vec![
            balance_entry("CRV", "1.5", "0.5"),
            balance_entry("USDT", "100", "0"),
        ]),
    )]);
    let a = binance::account_info_response(&ex_binance(), &body, "raw").unwrap();
    assert_eq!(a.available_symbol.mantissa, 15);
    assert_eq!(a.available_symbol.scale, 1);
    assert_eq!(a.frozen_symbol.mantissa, 5);
    assert_eq!(a.frozen_symbol.scale, 1);
    assert_eq!(a.available_currency.mantissa, 100);
    assert_eq!(a.available_currency.scale, 0);
    assert_eq!(a.frozen_currency.mantissa, 0);
}

#[test]
fn binance_account_missing_asset_is_error() {
    let body = obj(vec![(
        "balances",
        JsonValue::Arr(vec![balance_entry("USDT", "100", "0")]),
    )]);
    let r = binance::account_info_response(&ex_binance(), &body, "raw");
    assert!(matches!(r, Err(GateError::UnexpectedResponseShape(_))));
}

#[test]
fn binance_account_missing_balances_is_rejection() {
    let body = obj(vec![("code", JsonValue::Num(String::from("-1000")))]);
    let r = binance::account_info_response(&ex_binance(), &body, "raw");
    match r {
        Err(GateError::ExchangeRejected { exchange, payload }) => {
            assert_eq!(exchange, Exchanges::BINANCE);
            assert_eq!(payload, "raw");
        }
        other => panic!("expected rejection, got {:?}", other),
    }
}

#[test]
fn binance_status_map_covers_known_vocabulary() {
    assert_eq!(binance::order_status_from("NEW"), Some(OrderStatus::NEW));
    assert_eq!(
        binance::order_status_from("PARTIALLY_FILLED"),
        Some(OrderStatus::PARTIALLYFILLED)
    );
    assert_eq!(binance::order_status_from("FILLED"), Some(OrderStatus::FILLED));
    assert_eq!(binance::order_status_from("CANCELED"), Some(OrderStatus::CANCELED));
    assert_eq!(binance::order_status_from("REJECTED"), Some(OrderStatus::REJECTED));
    assert_eq!(binance::order_status_from("EXPIRED"), Some(OrderStatus::EXPIRED));
    assert_eq!(binance::order_status_from("FOO"), None);
}

fn order_body(status: &str) -> JsonValue {
    obj(vec![
        ("orderId", JsonValue::Num(String::from("42"))),
        ("origQty", s("10")),
        ("price", s("2.5")),
        ("status", s(status)),
        ("side", s("BUY")),
        ("time", JsonValue::Num(String::from("1600000000000"))),
        ("executedQty", s("4")),
    ])
}

#[test]
fn binance_order_info_normalizes() {
    let d = binance::order_info_response(&order_body("PARTIALLY_FILLED"), "raw").unwrap();
    assert_eq!(d.id, "42");
    assert_eq!(d.status, OrderStatus::PARTIALLYFILLED);
    assert_eq!(d.side, OrderSide::BUY);
    assert_eq!(d.created_at, 1600000000000);
    assert_eq!(d.volume.mantissa, 10);
    assert_eq!(d.trade_volume.mantissa, 4);
    assert_eq!(d.trade_avg_price.mantissa, 0);
}

#[test]
fn binance_unknown_status_is_unknown_enum_value() {
    let r = binance::order_info_response(&order_body("FOO"), "raw");
    match r {
        Err(GateError::UnknownEnumValue(v)) => assert_eq!(v, "FOO"),
        other => panic!("expected unknown enum value, got {:?}", other),
    }
}

#[test]
fn binance_depth_normalizes_five_levels() {
    let level = |p: &str, v: &str| JsonValue::Arr(vec![s(p), s(v)]);
    let five = |p: &str| {
        JsonValue::Arr(vec![
            level(p, "1"),
            level(p, "2"),
            level(p, "3"),
            level(p, "4"),
            level(p, "5"),
        ])
    };
    let body = obj(vec![("asks", five("2.5")), ("bids", five("2.4"))]);
    let d = binance::depth_response(&body, "raw").unwrap();
    assert_eq!(d.tick.asks.len(), 5);
    assert_eq!(d.tick.bids.len(), 5);
    assert_eq!(d.tick.asks[0].price.mantissa, 25);
    assert_eq!(d.ts, 0);
}

#[test]
fn binance_depth_missing_asks_is_rejection() {
    let body = obj(vec![("msg", s("oops"))]);
    let r = binance::depth_response(&body, "raw");
    assert!(matches!(r, Err(GateError::ExchangeRejected { .. })));
}

#[test]
fn binance_server_time_is_the_literal() {
    let body = obj(vec![("serverTime", JsonValue::Num(String::from("1600000000000")))]);
    assert_eq!(binance::parse_server_time(&body, "raw").unwrap(), "1600000000000");
}

#[test]
fn binance_cancel_order_reads_status() {
    let body = obj(vec![("status", s("CANCELED"))]);
    assert_eq!(binance::cancel_order_response(&body, "raw").unwrap(), true);
    let body2 = obj(vec![("status", s("NEW"))]);
    assert_eq!(binance::cancel_order_response(&body2, "raw").unwrap(), false);
}

#[test]
fn binance_cancel_all_requires_every_order_cancelled() {
    let body = JsonValue::Arr(vec![
        obj(vec![("status", s("CANCELED"))]),
        obj(vec![("status", s("NEW"))]),
    ]);
    assert_eq!(binance::cancel_all_order_response(&body, "raw").unwrap(), false);
    let all = JsonValue::Arr(vec![
        obj(vec![("status", s("CANCELED"))]),
        obj(vec![("status", s("CANCELED"))]),
    ]);
    assert_eq!(binance::cancel_all_order_response(&all, "raw").unwrap(), true);
}

#[test]
fn huobi_account_matches_currency_and_type() {
    let entry = |cur: &str, typ: &str, bal: &str| {
        obj(vec![("currency", s(cur)), ("type", s(typ)), ("balance", s(bal))])
    };
    let body = obj(vec![
        ("status", s("ok")),
        (
            "data",
            obj(vec![(
                "list",
                JsonValue::Arr(vec![
                    entry("crv", "trade", "7.5"),
                    entry("crv", "frozen", "0.5"),
                    entry("usdt", "trade", "200"),
                    entry("usdt", "frozen", "10"),
                ]),
            )]),
        ),
    ]);
    let ex = Exchange {
        name: Exchanges::HUOBI,
        symbol: String::from("crv"),
        currency: String::from("usdt"),
        host: String::from("api.huobi.pro"),
        protocol: String::from("https"),
        config: String::from("huobi.profile"),
    };
    let a = huobi::account_info_response(&ex, &body, "raw").unwrap();
    assert_eq!(a.available_symbol.mantissa, 75);
    assert_eq!(a.frozen_currency.mantissa, 10);
}

#[test]
fn huobi_error_envelope_is_rejection() {
    let body = obj(vec![("status", s("error"))]);
    let ex = Exchange {
        name: Exchanges::HUOBI,
        symbol: String::from("crv"),
        currency: String::from("usdt"),
        host: String::from("api.huobi.pro"),
        protocol: String::from("https"),
        config: String::from("huobi.profile"),
    };
    let r = huobi::account_info_response(&ex, &body, "raw");
    assert!(matches!(r, Err(GateError::ExchangeRejected { .. })));
}

#[test]
fn huobi_server_time_parses() {
    let body = obj(vec![("data", JsonValue::Num(String::from("1622517300123")))]);
    assert_eq!(huobi::parse_server_time(&body, "raw").unwrap(), 1622517300123);
}

#[test]
fn okex_server_time_parses() {
    let body = obj(vec![(
        "data",
        JsonValue::Arr(vec![obj(vec![("ts", s("1622517300123"))])]),
    )]);
    assert_eq!(okex::parse_server_time(&body, "raw").unwrap(), 1622517300123);
}

#[test]
fn okex_account_defaults_missing_entry_to_zero() {
    let entry = |ccy: &str, avail: &str, frozen: &str| {
        obj(vec![("ccy", s(ccy)), ("availBal", s(avail)), ("frozenBal", s(frozen))])
    };
    let body = obj(vec![
        ("code", s("0")),
        ("data", JsonValue::Arr(vec![entry("USDT", "42.5", "0.5")])),
    ]);
    let ex = Exchange {
        name: Exchanges::OKEX,
        symbol: String::from("crv"),
        currency: String::from("usdt"),
        host: String::from("www.okex.com"),
        protocol: String::from("https"),
        config: String::from("okex.profile"),
    };
    let a = okex::account_info_response(&ex, &body, "raw").unwrap();
    assert_eq!(a.available_symbol.mantissa, 0);
    assert_eq!(a.available_currency.mantissa, 425);
    assert_eq!(a.available_currency.scale, 1);
}

#[test]
fn okex_withdraw_response_reads_wd_id() {
    let body = obj(vec![
        ("code", s("0")),
        ("data", JsonValue::Arr(vec![obj(vec![("wdId", s("abc-123"))])])),
    ]);
    assert_eq!(okex::withdraw_response(&body, "raw").unwrap(), "abc-123");
    let bad = obj(vec![("code", s("58207")), ("msg", s("bad address"))]);
    assert!(matches!(
        okex::withdraw_response(&bad, "raw"),
        Err(GateError::ExchangeRejected { .. })
    ));
}

#[test]
fn huobi_withdraw_response_renders_numeric_id() {
    let body = obj(vec![("data", JsonValue::Num(String::from("991000")))]);
    assert_eq!(huobi::withdraw_response(&body, "raw").unwrap(), "991000");
}
