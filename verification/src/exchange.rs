//! Currency exchange: the request types and the endpoints' paths.

use vstd::prelude::*;

use crate::{Currency, FeePolicy};

verus! {

/// Currency exchange quote request
#[derive(Clone, Debug, PartialEq)]
pub struct CurrencyExchangeQuoteRequest {
    /// Currency to sell
    pub sell: Currency,
    /// Currency to buy
    pub buy: Currency,
    /// Amount and currency to convert
    pub amount: ExchangeAmount,
}

/// Amount with optional fee policy for exchange requests
#[derive(Clone, Debug, PartialEq)]
pub struct ExchangeAmount {
    /// Currency amount in decimal format
    pub amount: String,
    /// Currency code
    pub currency: Currency,
    /// Should the fee be included in the amount or added on top of it
    pub fee_policy: Option<FeePolicy>,
}

/// Currency exchange quote state
#[derive(Debug, Clone, Copy, Hash, PartialEq, Eq, Structural)]
pub enum ExchangeQuoteState {
    /// New quote
    New,
    /// Quote pending execution
    Pending,
    /// Quote completed successfully
    Completed,
    /// Quote failed
    Failed,
}

/// The path that currency exchange quotes are created at.
pub const CURRENCY_EXCHANGE_QUOTES_PATH: &'static str = "/v1/currency-exchange-quotes";

/// The path of one currency exchange quote: `/v1/currency-exchange-quotes/<id>`.
pub fn currency_exchange_quote_path(quote_id: &str) -> (r: String)
    ensures
        r@ == "/v1/currency-exchange-quotes/"@ + quote_id@,
{
    let mut p = String::from_str("/v1/currency-exchange-quotes/");
    p.append(quote_id);
    p
}

/// The path that executes a currency exchange quote:
/// `/v1/currency-exchange-quotes/<id>/execute`.
pub fn execute_currency_exchange_quote_path(quote_id: &str) -> (r: String)
    ensures
        r@ == "/v1/currency-exchange-quotes/"@ + quote_id@ + "/execute"@,
{
    let mut p = String::from_str("/v1/currency-exchange-quotes/");
    p.append(quote_id);
    p.append("/execute");
    p
}

} // verus!
