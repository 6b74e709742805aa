//! The capability matrix: unsupported operations fail with
//! `NotImplemented` and never produce a request.

use exgate::amount::Amount;
use exgate::config::{BinanceConfig, HuobiConfig, OkexConfig};
use exgate::exchange::{Credentials, Exchange};
use exgate::types::{Exchanges, GateError, Operation, OrderSide};

fn ex(name: Exchanges) -> Exchange {
    Exchange {
        name,
        symbol: String::from("crv"),
        currency: String::from("usdt"),
        host: String::from("example.invalid"),
        protocol: String::from("https"),
        config: String::from("profile"),
    }
}

fn creds(name: Exchanges) -> Credentials {
    match name {
        Exchanges::BINANCE => Credentials::Binance(BinanceConfig {
            access_id: String::from("ak"),
            secret_key: String::from("sec"),
        }),
        Exchanges::HUOBI => Credentials::Huobi(HuobiConfig {
            access_id: String::from("ak"),
            secret_key: String::from("sec"),
            account_id: String::from("123"),
            signature_method: String::from("HmacSHA256"),
            signature_version: String::from("2"),
        }),
        Exchanges::OKEX => Credentials::Okex(OkexConfig {
            access_id: String::from("ak"),
            secret_key: String::from("sec"),
            trade_pwd: String::from("pw"),
            passphrase: String::from("pp"),
        }),
    }
}

fn expect_not_implemented(r: Result<exgate::types::HttpRequest, GateError>, op: Operation) {
    match r {
        Err(GateError::NotImplemented { operation, .. }) => assert_eq!(operation, op),
        other => panic!("expected NotImplemented, got {:?}", other),
    }
}

#[test]
fn huobi_unsupported_operations() {
    let e = ex(Exchanges::HUOBI);
    let c = creds(Exchanges::HUOBI);
    let amt = Amount { mantissa: 1, scale: 0 };
    expect_not_implemented(e.depth(), Operation::Depth);
    expect_not_implemented(e.order_info(&c, "ts", "42"), Operation::OrderInfo);
    expect_not_implemented(
        e.create_order(&c, "ts", OrderSide::BUY, &amt, &amt),
        Operation::CreateOrder,
    );
    expect_not_implemented(e.cancel_order(&c, "ts", "42"), Operation::CancelOrder);
    expect_not_implemented(e.cancel_all_order(&c, "ts"), Operation::CancelAllOrder);
}

#[test]
fn okex_unsupported_operations() {
    let e = ex(Exchanges::OKEX);
    let c = creds(Exchanges::OKEX);
    let amt = Amount { mantissa: 1, scale: 0 };
    expect_not_implemented(e.depth(), Operation::Depth);
    expect_not_implemented(e.order_info(&c, "ts", "42"), Operation::OrderInfo);
    expect_not_implemented(
        e.create_order(&c, "ts", OrderSide::BUY, &amt, &amt),
        Operation::CreateOrder,
    );
    expect_not_implemented(e.cancel_order(&c, "ts", "42"), Operation::CancelOrder);
    expect_not_implemented(e.cancel_all_order(&c, "ts"), Operation::CancelAllOrder);
    expect_not_implemented(e.loan_info(&c, "ts"), Operation::LoanInfo);
}

#[test]
fn binance_supports_every_operation() {
    let e = ex(Exchanges::BINANCE);
    let c = creds(Exchanges::BINANCE);
    let amt = Amount { mantissa: 1, scale: 0 };
    assert!(e.depth().is_ok());
    assert!(e.account_info(&c, "1600000000000").is_ok());
    assert!(e.order_info(&c, "1600000000000", "42").is_ok());
    assert!(e.create_order(&c, "1600000000000", OrderSide::SELL, &amt, &amt).is_ok());
    assert!(e.cancel_order(&c, "1600000000000", "42").is_ok());
    assert!(e.cancel_all_order(&c, "1600000000000").is_ok());
    assert!(e.loan_info(&c, "1600000000000").is_ok());
    assert!(e
        .withdraw(&c, "1600000000000", "usdt", "addr", &amt, "")
        .is_ok());
}

#[test]
fn supported_operations_match_the_matrix() {
    let huobi = ex(Exchanges::HUOBI);
    let okex = ex(Exchanges::OKEX);
    let binance = ex(Exchanges::BINANCE);
    assert!(huobi.supports(Operation::AccountInfo));
    assert!(huobi.supports(Operation::LoanInfo));
    assert!(huobi.supports(Operation::Withdraw));
    assert!(!huobi.supports(Operation::Depth));
    assert!(okex.supports(Operation::AccountInfo));
    assert!(okex.supports(Operation::Withdraw));
    assert!(!okex.supports(Operation::LoanInfo));
    assert!(!okex.supports(Operation::CreateOrder));
    assert!(binance.supports(Operation::Depth));
    assert!(binance.supports(Operation::Withdraw));
}

#[test]
fn huobi_and_okex_account_requests_build() {
    let eh = ex(Exchanges::HUOBI);
    let ch = creds(Exchanges::HUOBI);
    let rh = eh.account_info(&ch, "2021-06-01T03:15:00").unwrap();
    assert_eq!(rh.path, "/v1/account/accounts/123/balance");
    assert!(rh.headers.is_empty());
    let eo = ex(Exchanges::OKEX);
    let co = creds(Exchanges::OKEX);
    let ro = eo.account_info(&co, "2021-06-01T03:15:00.123Z").unwrap();
    assert_eq!(ro.path, "/api/v5/asset/balances?ccy=CRV,USDT");
    assert_eq!(ro.headers.len(), 4);
    assert_eq!(ro.headers[0].0, "OK-ACCESS-KEY");
    assert_eq!(ro.headers[3].0, "OK-ACCESS-PASSPHRASE");
}

#[test]
fn config_defaults_are_empty() {
    let h = HuobiConfig::default();
    assert_eq!(h.access_id, "");
    assert_eq!(h.account_id, "");
    let b = BinanceConfig::default();
    assert_eq!(b.secret_key, "");
    let o = OkexConfig::default();
    assert_eq!(o.passphrase, "");
}
