//! The exchange gateway: one `Exchange` value per configured trading pair,
//! dispatching each logical operation to the matching signing protocol and
//! normalizer.  An operation an exchange does not support fails immediately
//! with `NotImplemented`; no request is built for it.

use vstd::prelude::*;

pub mod binance;
pub mod huobi;
pub mod okex;

verus! {

use crate::types::{Exchanges, GateError, HttpMethod, HttpRequest, Operation, OrderSide};
use crate::amount::Amount;

/// The trading context: exchange identity, traded pair, API endpoint and
/// the name of the credential profile.  Built once at startup and never
/// mutated.
#[derive(Clone, Debug)]
pub struct Exchange {
    pub name: Exchanges,
    /// The traded asset's ticker, e.g. `crv`.
    pub symbol: String,
    /// The quote currency's ticker, e.g. `usdt`.
    pub currency: String,
    /// The API host, e.g. `api.binance.com`.
    pub host: String,
    /// The URI scheme, e.g. `https`.
    pub protocol: String,
    /// The credential profile name.
    pub config: String,
}

impl Exchange {
    /// Well-formedness: the identifying strings are ASCII, as tickers and
    /// host names are.  The signing protocols rebuild query strings from
    /// these bytes and rely on it.
    pub open spec fn wf(self) -> bool {
        vstd::utf8::is_ascii_chars(self.symbol@) && vstd::utf8::is_ascii_chars(self.currency@)
            && vstd::utf8::is_ascii_chars(self.host@) && vstd::utf8::is_ascii_chars(
            self.protocol@,
        )
    }

    /// The capability matrix: which operations each exchange implements.
    /// Everything else returns `NotImplemented` without any request being
    /// built.
    pub open spec fn spec_supports(exchange: Exchanges, op: Operation) -> bool {
        match exchange {
            Exchanges::BINANCE => true,
            Exchanges::HUOBI => op == Operation::AccountInfo || op == Operation::LoanInfo || op
                == Operation::Withdraw,
            Exchanges::OKEX => op == Operation::AccountInfo || op == Operation::Withdraw,
        }
    }

    /// Whether this context's exchange implements an operation.
    pub fn supports(&self, op: Operation) -> (r: bool)
        ensures
            r == Exchange::spec_supports(self.name, op),
    {
        match self.name {
            Exchanges::BINANCE => true,
            Exchanges::HUOBI => matches!(
                op,
                Operation::AccountInfo | Operation::LoanInfo | Operation::Withdraw
            ),
            Exchanges::OKEX => matches!(op, Operation::AccountInfo | Operation::Withdraw),
        }
    }

    /// The order-book depth request.  Implemented by Binance alone; the
    /// other exchanges fail with `NotImplemented` and no request is built.
    pub fn depth(&self) -> (r: Result<HttpRequest, GateError>)
        requires
            self.wf(),
        ensures
            !Exchange::spec_supports(self.name, Operation::Depth) <==> (r matches Err(e)
                && e matches GateError::NotImplemented { exchange, operation } && exchange
                == self.name && operation == Operation::Depth),
            self.name == Exchanges::BINANCE ==> (r matches Ok(q) && q.method == HttpMethod::GET
                && q.path@ == "/api/v3/depth"@ && crate::codec::bytes_of(q.query@)
                == crate::codec::bytes_of("symbol="@) + binance::spec_pair_symbol(*self)
                + crate::codec::bytes_of("&limit=5"@) && q.headers@.len() == 0),
    {
        match self.name {
            Exchanges::BINANCE => Ok(binance::depth(self)),
            _ => Err(
                GateError::NotImplemented { exchange: self.name, operation: Operation::Depth },
            ),
        }
    }

    /// The account-balances request, signed for whichever exchange this
    /// context names.
    pub fn account_info(&self, creds: &Credentials, time_str: &str) -> (r: Result<
        HttpRequest,
        GateError,
    >)
        requires
            self.wf(),
            creds.matches_exchange(self.name),
        ensures
            r is Ok,
            r matches Ok(q) ==> (match *creds {
                Credentials::Binance(cfg) => q.method == HttpMethod::GET && q.path@
                    == "/api/v3/account"@ && crate::codec::bytes_of(q.query@)
                    == binance::binance_signed_query(
                    crate::codec::bytes_of(cfg.secret_key@),
                    Seq::empty(),
                    Seq::empty(),
                    crate::codec::bytes_of(time_str@),
                ) && binance::spec_auth_headers(cfg, q.headers@),
                Credentials::Huobi(cfg) => q.method == HttpMethod::GET && q.path@
                    == huobi::spec_balance_path(cfg) && crate::codec::bytes_of(q.query@)
                    == huobi::huobi_signed_query(
                    Seq::empty(),
                    cfg,
                    "GET"@,
                    self.host@,
                    huobi::spec_balance_path(cfg),
                    crate::codec::bytes_of(time_str@),
                ) && q.headers@.len() == 0,
                Credentials::Okex(cfg) => q.method == HttpMethod::GET && q.path@
                    == okex::spec_balances_path(*self) && okex::spec_auth_headers(
                    cfg,
                    okex::okex_signature(
                        cfg.secret_key@,
                        time_str@,
                        HttpMethod::GET,
                        okex::spec_balances_path(*self),
                        Seq::empty(),
                    ),
                    time_str@,
                    q.headers@,
                ),
            }),
    {
        match (self.name, creds) {
            (Exchanges::BINANCE, Credentials::Binance(cfg)) => Ok(
                binance::account_info(self, cfg, time_str),
            ),
            (Exchanges::HUOBI, Credentials::Huobi(cfg)) => Ok(
                huobi::account_info(self, cfg, time_str),
            ),
            (Exchanges::OKEX, Credentials::Okex(cfg)) => Ok(
                okex::account_info(self, cfg, time_str),
            ),
            _ => {
                proof {
                    assert(false);
                }
                Err(GateError::shape("mismatched credentials"))
            },
        }
    }

    /// The order lookup.  Implemented by Binance alone.
    pub fn order_info(&self, creds: &Credentials, time_str: &str, order_id: &str) -> (r: Result<
        HttpRequest,
        GateError,
    >)
        requires
            self.wf(),
            creds.matches_exchange(self.name),
        ensures
            !Exchange::spec_supports(self.name, Operation::OrderInfo) <==> (r matches Err(e)
                && e matches GateError::NotImplemented { exchange, operation } && exchange
                == self.name && operation == Operation::OrderInfo),
            self.name == Exchanges::BINANCE ==> (r matches Ok(q) && q.method == HttpMethod::GET
                && q.path@ == "/api/v3/order"@ && crate::codec::bytes_of(q.query@)
                == binance::binance_signed_query(
                crate::codec::bytes_of(creds.spec_binance().secret_key@),
                binance::spec_order_params(*self, order_id@),
                Seq::empty(),
                crate::codec::bytes_of(time_str@),
            )),
    {
        match (self.name, creds) {
            (Exchanges::BINANCE, Credentials::Binance(cfg)) => Ok(
                binance::order_info(self, cfg, time_str, order_id),
            ),
            _ => Err(
                GateError::NotImplemented { exchange: self.name, operation: Operation::OrderInfo },
            ),
        }
    }

    /// The limit-order creation.  Implemented by Binance alone.
    pub fn create_order(
        &self,
        creds: &Credentials,
        time_str: &str,
        side: OrderSide,
        price: &Amount,
        volume: &Amount,
    ) -> (r: Result<HttpRequest, GateError>)
        requires
            self.wf(),
            creds.matches_exchange(self.name),
            price.wf(),
            volume.wf(),
        ensures
            !Exchange::spec_supports(self.name, Operation::CreateOrder) <==> (r matches Err(e)
                && e matches GateError::NotImplemented { exchange, operation } && exchange
                == self.name && operation == Operation::CreateOrder),
            self.name == Exchanges::BINANCE ==> (r matches Ok(q) && q.method == HttpMethod::POST
                && q.path@ == "/api/v3/order"@ && crate::codec::bytes_of(q.query@)
                == binance::binance_signed_query(
                crate::codec::bytes_of(creds.spec_binance().secret_key@),
                binance::spec_create_params(*self, side, *price, *volume),
                Seq::empty(),
                crate::codec::bytes_of(time_str@),
            )),
    {
        match (self.name, creds) {
            (Exchanges::BINANCE, Credentials::Binance(cfg)) => Ok(
                binance::create_order(self, cfg, time_str, side, price, volume),
            ),
            _ => Err(
                GateError::NotImplemented {
                    exchange: self.name,
                    operation: Operation::CreateOrder,
                },
            ),
        }
    }

    /// The order cancellation.  Implemented by Binance alone.
    pub fn cancel_order(&self, creds: &Credentials, time_str: &str, order_id: &str) -> (r: Result<
        HttpRequest,
        GateError,
    >)
        requires
            self.wf(),
            creds.matches_exchange(self.name),
        ensures
            !Exchange::spec_supports(self.name, Operation::CancelOrder) <==> (r matches Err(e)
                && e matches GateError::NotImplemented { exchange, operation } && exchange
                == self.name && operation == Operation::CancelOrder),
            self.name == Exchanges::BINANCE ==> (r matches Ok(q) && q.method == HttpMethod::DELETE
                && q.path@ == "/api/v3/order"@ && crate::codec::bytes_of(q.query@)
                == binance::binance_signed_query(
                crate::codec::bytes_of(creds.spec_binance().secret_key@),
                binance::spec_order_params(*self, order_id@),
                Seq::empty(),
                crate::codec::bytes_of(time_str@),
            )),
    {
        match (self.name, creds) {
            (Exchanges::BINANCE, Credentials::Binance(cfg)) => Ok(
                binance::cancel_order(self, cfg, time_str, order_id),
            ),
            _ => Err(
                GateError::NotImplemented {
                    exchange: self.name,
                    operation: Operation::CancelOrder,
                },
            ),
        }
    }

    /// The cancellation of all open orders of the pair.  Implemented by
    /// Binance alone.
    pub fn cancel_all_order(&self, creds: &Credentials, time_str: &str) -> (r: Result<
        HttpRequest,
        GateError,
    >)
        requires
            self.wf(),
            creds.matches_exchange(self.name),
        ensures
            !Exchange::spec_supports(self.name, Operation::CancelAllOrder) <==> (r matches Err(e)
                && e matches GateError::NotImplemented { exchange, operation } && exchange
                == self.name && operation == Operation::CancelAllOrder),
            self.name == Exchanges::BINANCE ==> (r matches Ok(q) && q.method == HttpMethod::DELETE
                && q.path@ == "/api/v3/openOrders"@ && crate::codec::bytes_of(q.query@)
                == binance::binance_signed_query(
                crate::codec::bytes_of(creds.spec_binance().secret_key@),
                binance::spec_symbol_params(*self),
                Seq::empty(),
                crate::codec::bytes_of(time_str@),
            )),
    {
        match (self.name, creds) {
            (Exchanges::BINANCE, Credentials::Binance(cfg)) => Ok(
                binance::cancel_all_order(self, cfg, time_str),
            ),
            _ => Err(
                GateError::NotImplemented {
                    exchange: self.name,
                    operation: Operation::CancelAllOrder,
                },
            ),
        }
    }

    /// The margin-loan lookup.  Implemented by Binance and Huobi; the
    /// OKEX endpoint is deprecated, so the gateway treats it as
    /// unimplemented.
    pub fn loan_info(&self, creds: &Credentials, time_str: &str) -> (r: Result<
        HttpRequest,
        GateError,
    >)
        requires
            self.wf(),
            creds.matches_exchange(self.name),
        ensures
            !Exchange::spec_supports(self.name, Operation::LoanInfo) <==> (r matches Err(e)
                && e matches GateError::NotImplemented { exchange, operation } && exchange
                == self.name && operation == Operation::LoanInfo),
            self.name == Exchanges::BINANCE ==> (r matches Ok(q) && q.method == HttpMethod::GET
                && q.path@ == "/sapi/v1/margin/isolated/pair"@ && crate::codec::bytes_of(q.query@)
                == binance::binance_signed_query(
                crate::codec::bytes_of(creds.spec_binance().secret_key@),
                binance::spec_symbol_params(*self),
                Seq::empty(),
                crate::codec::bytes_of(time_str@),
            )),
            self.name == Exchanges::HUOBI ==> (r matches Ok(q) && q.method == HttpMethod::GET
                && q.path@ == "/v1/margin/loan-info"@ && crate::codec::bytes_of(q.query@)
                == huobi::huobi_signed_query(
                seq![
                    (
                        crate::codec::bytes_of("symbols"@),
                        huobi::spec_pair_symbol_lower(*self),
                    ),
                ],
                creds.spec_huobi(),
                "GET"@,
                self.host@,
                "/v1/margin/loan-info"@,
                crate::codec::bytes_of(time_str@),
            )),
    {
        match (self.name, creds) {
            (Exchanges::BINANCE, Credentials::Binance(cfg)) => Ok(
                binance::loan_info(self, cfg, time_str),
            ),
            (Exchanges::HUOBI, Credentials::Huobi(cfg)) => Ok(
                huobi::loan_info(self, cfg, time_str),
            ),
            _ => Err(
                GateError::NotImplemented { exchange: self.name, operation: Operation::LoanInfo },
            ),
        }
    }

    /// The withdrawal, with each exchange's own chain and fee policy:
    /// Binance passes the raw amount, Huobi subtracts its fixed fee, OKEX
    /// declares the looked-up fee unmodified.
    pub fn withdraw(
        &self,
        creds: &Credentials,
        time_str: &str,
        asset: &str,
        address: &str,
        amount: &Amount,
        okex_fee: &str,
    ) -> (r: Result<HttpRequest, GateError>)
        requires
            self.wf(),
            creds.matches_exchange(self.name),
            amount.wf(),
            vstd::utf8::is_ascii_chars(asset@),
        ensures
            !(r matches Err(e) && e is NotImplemented),
            self.name == Exchanges::BINANCE ==> (r matches Ok(q) && q.method == HttpMethod::POST
                && q.path@ == "/sapi/v1/capital/withdraw/apply"@ && crate::codec::bytes_of(q.query@)
                == binance::binance_signed_query(
                crate::codec::bytes_of(creds.spec_binance().secret_key@),
                binance::spec_withdraw_params(asset@, address@, *amount),
                Seq::empty(),
                crate::codec::bytes_of(time_str@),
            )),
            self.name == Exchanges::HUOBI ==> ((r is Ok <==> huobi::spec_fee_units(asset@)
                * crate::num::pow10(amount.scale as nat) <= amount.mantissa) && (r matches Ok(q)
                ==> q.body@ == huobi::spec_withdraw_body(
                address@,
                huobi::spec_net_amount(*amount, huobi::spec_fee_units(asset@)),
                huobi::spec_huobi_chain(asset@),
                asset@,
                Amount { mantissa: huobi::spec_fee_units(asset@), scale: 0 },
            ))),
            self.name == Exchanges::OKEX ==> ((r is Ok <==> asset@.len() > 0 && address@.len() > 0
                && okex::trade_pwd_ok(creds.spec_okex()) && okex_fee@.len() > 0) && (r matches Ok(
                q,
            ) ==> q.body@ == okex::okex_body_of(
                okex::spec_withdraw_items(
                    asset@,
                    address@,
                    *amount,
                    okex_fee@,
                    creds.spec_okex().trade_pwd@,
                ),
                false,
            ))),
    {
        match (self.name, creds) {
            (Exchanges::BINANCE, Credentials::Binance(cfg)) => Ok(
                binance::withdraw(self, cfg, time_str, asset, address, amount),
            ),
            (Exchanges::HUOBI, Credentials::Huobi(cfg)) => huobi::withdraw(
                self,
                cfg,
                time_str,
                asset,
                address,
                amount,
            ),
            (Exchanges::OKEX, Credentials::Okex(cfg)) => okex::withdraw(
                self,
                cfg,
                time_str,
                asset,
                address,
                amount,
                okex_fee,
            ),
            _ => {
                proof {
                    assert(false);
                }
                Err(GateError::shape("mismatched credentials"))
            },
        }
    }
}

/// A resolved credential bundle for one exchange, loaded by the
/// credential store outside the library.
#[derive(Clone, Debug)]
pub enum Credentials {
    Huobi(crate::config::HuobiConfig),
    Binance(crate::config::BinanceConfig),
    Okex(crate::config::OkexConfig),
}

impl Credentials {
    /// Whether the bundle belongs to the named exchange.
    pub open spec fn matches_exchange(self, e: Exchanges) -> bool {
        match (self, e) {
            (Credentials::Binance(_), Exchanges::BINANCE) => true,
            (Credentials::Huobi(_), Exchanges::HUOBI) => true,
            (Credentials::Okex(_), Exchanges::OKEX) => true,
            _ => false,
        }
    }

    /// The Binance bundle, where this is one.
    pub open spec fn spec_binance(self) -> crate::config::BinanceConfig
        recommends
            self is Binance,
    {
        match self {
            Credentials::Binance(cfg) => cfg,
            _ => arbitrary(),
        }
    }

    /// The Huobi bundle, where this is one.
    pub open spec fn spec_huobi(self) -> crate::config::HuobiConfig
        recommends
            self is Huobi,
    {
        match self {
            Credentials::Huobi(cfg) => cfg,
            _ => arbitrary(),
        }
    }

    /// The OKEX bundle, where this is one.
    pub open spec fn spec_okex(self) -> crate::config::OkexConfig
        recommends
            self is Okex,
    {
        match self {
            Credentials::Okex(cfg) => cfg,
            _ => arbitrary(),
        }
    }
}

} // verus!
