//! Lightning payments: the quote request and the endpoints' paths.

use vstd::prelude::*;

use crate::Currency;

verus! {

/// Pay Invoice Request
#[derive(Clone, Debug, PartialEq)]
pub struct PayInvoiceQuoteRequest {
    /// Bolt11 Invoice to pay
    pub ln_invoice: String,
    /// Currency to send from
    pub source_currency: Currency,
}

/// The path that lightning payment quotes are created at.
pub const LIGHTNING_PAYMENT_QUOTES_PATH: &'static str = "/v1/payment-quotes/lightning";

/// The path that executes a payment quote: `/v1/payment-quotes/<id>/execute`.
pub fn execute_payment_quote_path(payment_quote_id: &str) -> (r: String)
    ensures
        r@ == "/v1/payment-quotes/"@ + payment_quote_id@ + "/execute"@,
{
    let mut p = String::from_str("/v1/payment-quotes/");
    p.append(payment_quote_id);
    p.append("/execute");
    p
}

/// The path of an outgoing payment: `/v1/payments/<id>`.
pub fn outgoing_payment_path(payment_id: &str) -> (r: String)
    ensures
        r@ == "/v1/payments/"@ + payment_id@,
{
    let mut p = String::from_str("/v1/payments/");
    p.append(payment_id);
    p
}

} // verus!
