//! Per-exchange credential bundles and the fixed withdrawal-chain aliases.
//! Loading the bundles from a named profile is the credential store's job,
//! outside the library; the signing protocols only consume the resolved
//! values.

use vstd::prelude::*;

verus! {

/// Huobi credentials: key pair, account id, and the signature scheme
/// fields that enter the signed parameter set.
#[derive(Clone, Debug)]
pub struct HuobiConfig {
    pub access_id: String,
    pub secret_key: String,
    pub account_id: String,
    pub signature_method: String,
    pub signature_version: String,
}

/// Binance credentials: an API key carried in a header and the HMAC secret.
#[derive(Clone, Debug)]
pub struct BinanceConfig {
    pub access_id: String,
    pub secret_key: String,
}

/// OKEX credentials: key pair plus the passphrase and trade password that
/// its API requires alongside them.
#[derive(Clone, Debug)]
pub struct OkexConfig {
    pub access_id: String,
    pub secret_key: String,
    pub trade_pwd: String,
    pub passphrase: String,
}

impl Default for HuobiConfig {
    /// An empty credential bundle.
    fn default() -> (r: Self)
        ensures
            r.access_id@.len() == 0,
            r.secret_key@.len() == 0,
            r.account_id@.len() == 0,
            r.signature_method@.len() == 0,
            r.signature_version@.len() == 0,
    {
        HuobiConfig {
            access_id: String::new(),
            secret_key: String::new(),
            account_id: String::new(),
            signature_method: String::new(),
            signature_version: String::new(),
        }
    }
}

impl Default for BinanceConfig {
    /// An empty credential bundle.
    fn default() -> (r: Self)
        ensures
            r.access_id@.len() == 0,
            r.secret_key@.len() == 0,
    {
        BinanceConfig { access_id: String::new(), secret_key: String::new() }
    }
}

impl Default for OkexConfig {
    /// An empty credential bundle.
    fn default() -> (r: Self)
        ensures
            r.access_id@.len() == 0,
            r.secret_key@.len() == 0,
            r.trade_pwd@.len() == 0,
            r.passphrase@.len() == 0,
    {
        OkexConfig {
            access_id: String::new(),
            secret_key: String::new(),
            trade_pwd: String::new(),
            passphrase: String::new(),
        }
    }
}

/// The chain alias each exchange expects for a USDT withdrawal.
pub fn huobi_usdt_withdraw_chain() -> (r: &'static str)
    ensures
        r@ == "trc20usdt"@,
{
    "trc20usdt"
}

pub fn okex_usdt_withdraw_chain() -> (r: &'static str)
    ensures
        r@ == "USDT-TRC20"@,
{
    "USDT-TRC20"
}

pub fn binance_usdt_withdraw_chain() -> (r: &'static str)
    ensures
        r@ == "trx"@,
{
    "trx"
}

} // verus!
