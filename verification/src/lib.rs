//! Strike API SDK: the verified core of a client for <https://strike.me/>.
//!
//! The library decides everything that does not need the network: the endpoints' paths, the
//! invoice query strings, the client's setup, and how a failed response becomes an [`Error`].

use vstd::prelude::*;

use rand::Rng;

mod error;
pub mod exchange;
pub mod invoice;
pub mod laws;
mod outside;
pub mod pay_ln;
pub mod text;

pub use error::{
    DebugInfo, Error, StrikeApiError, StrikeApiErrorData, StrikeErrorCode, ValidationError,
    ValidationErrorCode,
};
pub use exchange::{CurrencyExchangeQuoteRequest, ExchangeAmount, ExchangeQuoteState};
pub use invoice::{Filter, FilterOp, InvoiceQueryParams};
pub use pay_ln::PayInvoiceQuoteRequest;

use crate::text::{decimal, push_char, push_decimal};

verus! {

/// Currency unit
#[derive(Debug, Clone, Copy, Hash, PartialEq, Eq, Structural)]
pub enum Currency {
    /// USD
    USD,
    /// EURO
    EUR,
    /// Bitcoin
    BTC,
    /// Tether USD
    USDT,
    /// British Pound
    GBP,
    /// Australian Dollar
    AUD,
}

impl Currency {
    /// The currency code as it is written on the wire and shown to people.
    pub open spec fn code_spec(self) -> Seq<char> {
        match self {
            Currency::USD => "USD"@,
            Currency::EUR => "EUR"@,
            Currency::BTC => "BTC"@,
            Currency::USDT => "USDT"@,
            Currency::GBP => "GBP"@,
            Currency::AUD => "AUD"@,
        }
    }

    /// The currency code (`USD`, `EUR`, `BTC`, `USDT`, `GBP`, `AUD`).
    pub fn to_string(&self) -> (r: String)
        ensures
            r@ == self.code_spec(),
    {
        let s: &str = match self {
            Currency::USD => "USD",
            Currency::EUR => "EUR",
            Currency::BTC => "BTC",
            Currency::USDT => "USDT",
            Currency::GBP => "GBP",
            Currency::AUD => "AUD",
        };
        String::from_str(s)
    }
}

/// Invoice state
#[derive(Debug, Clone, Copy, Hash, PartialEq, Eq, Structural)]
pub enum InvoiceState {
    /// Payment Completed
    Completed,
    /// Invoice paid
    Paid,
    /// Invoice unpaid
    Unpaid,
    /// Invoice pending
    Pending,
    /// Payment failed
    Failed,
}

/// Payment result (obsolete, use InvoiceState instead)
#[derive(Debug, Clone, Copy, Hash, PartialEq, Eq, Structural)]
pub enum PaymentResult {
    /// Payment pending
    Pending,
    /// Payment successful
    Success,
    /// Payment failed
    Failure,
}

/// Fee policy for payments
#[derive(Debug, Clone, Copy, Hash, PartialEq, Eq, Structural)]
pub enum FeePolicy {
    /// Fee is included in the amount
    Inclusive,
    /// Fee is added on top of the amount
    Exclusive,
}

/// On-chain payment details
#[derive(Debug, Clone, PartialEq)]
pub struct OnchainPaymentDetails {
    /// The COMPLETED onchain payment's transaction ID
    pub txn_id: Option<String>,
}

/// The serialization of the URL that `Url::parse` makes of a text, if it accepts the text
/// (a function of the text alone).
pub uninterp spec fn url_parse(input: Seq<char>) -> Option<Seq<char>>;

/// `url::Url::parse`: parses an absolute URL; the library keeps it as its serialization
/// (`String::from(Url)`). The contract names the outcome, a function of the text alone; what
/// the serialization looks like is not described.
#[verifier::external_body]
fn parse_url(input: &str) -> (r: Result<String, url::ParseError>)
    ensures
        match r {
            Ok(u) => url_parse(input@) == Some(u@),
            Err(_) => url_parse(input@) is None,
        },
{
    match url::Url::parse(input) {
        Ok(u) => Ok(u.into()),
        Err(e) => Err(e),
    }
}

/// The serialization of the URL that `Url::join` makes of `input` relative to the URL whose
/// serialization is `base`, if it accepts them (a function of the two texts alone).
pub uninterp spec fn url_join(base: Seq<char>, input: Seq<char>) -> Option<Seq<char>>;

/// `url::Url::join`: resolves `input` as a URL reference against the URL `base` (which is
/// first read back with `url::Url::parse`); the result is kept as its serialization. The
/// contract names the outcome, a function of the two texts alone; what the URL looks like is
/// not described.
#[verifier::external_body]
fn join_url(base: &str, input: &str) -> (r: Result<String, url::ParseError>)
    ensures
        match r {
            Ok(u) => url_join(base@, input@) == Some(u@),
            Err(_) => url_join(base@, input@) is None,
        },
{
    let base = match url::Url::parse(base) {
        Ok(u) => u,
        Err(e) => return Err(e),
    };
    match base.join(input) {
        Ok(u) => Ok(u.into()),
        Err(e) => Err(e),
    }
}

/// `reqwest::ClientBuilder::build` on a default builder. Whether it succeeds depends on the
/// machine (the TLS backend and the system configuration), so nothing is claimed of it.
#[verifier::external_body]
fn build_http_client() -> (r: Result<reqwest::Client, reqwest::Error>) {
    reqwest::Client::builder().build()
}

/// An ASCII letter or digit.
pub open spec fn is_alphanumeric_char(c: char) -> bool {
    ||| ('0' <= c && c <= '9')
    ||| ('A' <= c && c <= 'Z')
    ||| ('a' <= c && c <= 'z')
}

/// `rand::Rng::sample` with `rand::distr::Alphanumeric` on the thread-local generator: the
/// `rand` documentation promises a byte drawn from ASCII `a-z`, `A-Z` and `0-9`. Which one is
/// chance, so only that is claimed.
#[verifier::external_body]
fn random_alphanumeric() -> (r: u8)
    ensures
        is_alphanumeric_char(r as char),
{
    rand::rng().sample(rand::distr::Alphanumeric)
}

/// The reason phrase that `StatusCode::canonical_reason` gives for a status code
/// (a function of the code alone).
pub uninterp spec fn canonical_reason_phrase(status: u16) -> Option<Seq<char>>;

/// `http::StatusCode::canonical_reason` (re-exported by `reqwest`): the standard reason phrase
/// of a status code, if it has one. `StatusCode::from_u16` refuses codes outside `100..=999`,
/// for which there is no phrase.
#[verifier::external_body]
fn canonical_reason(status: u16) -> (r: Option<&'static str>)
    ensures
        match r {
            Some(p) => canonical_reason_phrase(status) == Some(p@),
            None => canonical_reason_phrase(status) is None,
        },
        !(100 <= status <= 999) ==> r is None,
{
    match reqwest::StatusCode::from_u16(status) {
        Ok(code) => code.canonical_reason(),
        Err(_) => None,
    }
}

/// The API that a client talks to unless it is given another one.
pub const DEFAULT_API_URL: &'static str = "https://api.strike.me";

/// How many characters the webhook secret has.
pub const WEBHOOK_SECRET_LEN: usize = 15;

/// The API URL that a client is made with.
pub open spec fn chosen_api_url(api_url: Option<String>) -> Seq<char> {
    match api_url {
        Some(u) => u@,
        None => DEFAULT_API_URL@,
    }
}

/// A status code in `200..=299`.
pub open spec fn is_success_status(status: u16) -> bool {
    200 <= status <= 299
}

/// The error code given to a failed response whose body is no Strike error.
pub open spec fn fallback_code(status: u16) -> StrikeErrorCode {
    match status {
        400 => StrikeErrorCode::InvalidData,
        401 => StrikeErrorCode::Unauthorized,
        403 => StrikeErrorCode::Forbidden,
        404 => StrikeErrorCode::NotFound,
        409 => StrikeErrorCode::ProcessingConflict,
        422 => StrikeErrorCode::UnprocessableEntity,
        429 => StrikeErrorCode::RateLimitExceeded,
        500 => StrikeErrorCode::InternalServerError,
        502 => StrikeErrorCode::BadGateway,
        503 => StrikeErrorCode::ServiceUnavailable,
        504 => StrikeErrorCode::GatewayTimeout,
        _ => StrikeErrorCode::Unknown,
    }
}

/// The message of such an error: the body, or `HTTP <status>: <reason>` when the body is empty.
pub open spec fn fallback_message(status: u16, text: Seq<char>) -> Seq<char> {
    if text.len() == 0 {
        "HTTP "@ + decimal(status as nat) + ": "@ + match canonical_reason_phrase(status) {
            Some(p) => p,
            None => "Unknown"@,
        }
    } else {
        text
    }
}

/// The Strike error made up for a failed response whose body is no Strike error.
pub open spec fn is_fallback_error(e: StrikeApiError, status: u16, text: Seq<char>) -> bool {
    &&& e.trace_id is None
    &&& e.data.status == status
    &&& e.data.code == fallback_code(status)
    &&& e.data.message@ == fallback_message(status, text)
    &&& e.data.values@.len() == 0
    &&& e.data.validation_errors@.len() == 0
    &&& e.data.debug is None
    &&& e.wf()
}

/// How a failed response is answered: the Strike error of its body when the body is one
/// (`parsed`), else the error made up from the status and the body.
pub open spec fn answers_failure(
    r: Error,
    status: u16,
    text: Seq<char>,
    parsed: Option<StrikeApiError>,
) -> bool {
    match parsed {
        Some(p) => r == Error::ApiError(p),
        None => r matches Error::ApiError(e) && is_fallback_error(e, status, text),
    }
}

/// Strike
#[derive(Debug, Clone)]
pub struct Strike {
    api_key: String,
    base_url: String,
    client: reqwest::Client,
    webhook_secret: String,
}

impl Strike {
    /// The API key the client authenticates with.
    pub closed spec fn api_key_spec(&self) -> Seq<char> {
        self.api_key@
    }

    /// The secret the client's webhooks are signed with.
    pub closed spec fn webhook_secret_spec(&self) -> Seq<char> {
        self.webhook_secret@
    }

    /// The URL of the API, as its serialization.
    pub closed spec fn base_url_spec(&self) -> Seq<char> {
        self.base_url@
    }

    /// The HTTP client.
    pub closed spec fn client_spec(&self) -> reqwest::Client {
        self.client
    }

    /// Create Strike client
    /// # Arguments
    /// * `api_key` - Strike api token
    /// * `url` - Optional Url of nodeless api
    pub fn new(api_key: &str, api_url: Option<String>) -> (r: Result<Self, Error>)
        ensures
            (r matches Err(Error::InvalidUrl(_))) <==> url_parse(chosen_api_url(api_url)) is None,
            api_url matches Some(u) ==> ((r matches Err(Error::InvalidUrl(_))) <==> url_parse(u@)
                is None),
            api_url is None ==> ((r matches Err(Error::InvalidUrl(_))) <==> url_parse(
                "https://api.strike.me"@,
            ) is None),
            api_url matches Some(u) ==> (r matches Ok(s) ==> url_parse(u@) == Some(
                s.base_url_spec(),
            )),
            api_url is None ==> (r matches Ok(s) ==> url_parse("https://api.strike.me"@) == Some(
                s.base_url_spec(),
            )),
            r matches Err(e) ==> (e is InvalidUrl || e is ReqwestError),
            r matches Ok(s) ==> {
                &&& s.api_key_spec() == api_key@
                &&& url_parse(chosen_api_url(api_url)) == Some(s.base_url_spec())
                &&& s.webhook_secret_spec().len() == WEBHOOK_SECRET_LEN
                &&& forall|i: int|
                    0 <= i < s.webhook_secret_spec().len() ==> is_alphanumeric_char(
                        #[trigger] s.webhook_secret_spec()[i],
                    )
            },
    {
        let parsed = match &api_url {
            Some(u) => parse_url(u.as_str()),
            None => parse_url(DEFAULT_API_URL),
        };
        let base_url = match parsed {
            Ok(u) => u,
            Err(e) => {
                return Err(Error::InvalidUrl(e));
            },
        };
        let client = match build_http_client() {
            Ok(c) => c,
            Err(e) => {
                return Err(Error::ReqwestError(e));
            },
        };
        let mut secret = String::new();
        let mut i: usize = 0;
        while i < WEBHOOK_SECRET_LEN
            invariant
                i <= WEBHOOK_SECRET_LEN,
                secret@.len() == i,
                forall|k: int| 0 <= k < i ==> is_alphanumeric_char(#[trigger] secret@[k]),
            decreases WEBHOOK_SECRET_LEN - i,
        {
            let b = random_alphanumeric();
            push_char(&mut secret, b as char);
            i = i + 1;
        }
        Ok(Strike { api_key: String::from_str(api_key), base_url, client, webhook_secret: secret })
    }

    /// The API key the client authenticates with.
    pub fn api_key(&self) -> (r: &str)
        ensures
            r@ == self.api_key_spec(),
    {
        self.api_key.as_str()
    }

    /// The secret the client's webhooks are signed with.
    pub fn webhook_secret(&self) -> (r: &str)
        ensures
            r@ == self.webhook_secret_spec(),
    {
        self.webhook_secret.as_str()
    }

    /// The URL of the API, as its serialization.
    pub fn base_url(&self) -> (r: &str)
        ensures
            r@ == self.base_url_spec(),
    {
        self.base_url.as_str()
    }

    /// The HTTP client.
    pub fn client(&self) -> (r: &reqwest::Client)
        ensures
            *r == self.client_spec(),
    {
        &self.client
    }

    /// The URL of an endpoint: `path` resolved against the API's URL (as its serialization).
    pub fn endpoint(&self, path: &str) -> (r: Result<String, Error>)
        ensures
            match r {
                Ok(u) => url_join(self.base_url_spec(), path@) == Some(u@),
                Err(e) => e is InvalidUrl && url_join(self.base_url_spec(), path@) is None,
            },
    {
        match join_url(self.base_url.as_str(), path) {
            Ok(u) => Ok(u),
            Err(e) => Err(Error::InvalidUrl(e)),
        }
    }

    /// Handle API error response: the Strike error that the body holds (`parsed`, when the body
    /// parses as one), else one made up from the status code and the body.
    pub fn handle_api_error(&self, status: u16, text: &str, parsed: Option<StrikeApiError>) -> (r:
        Error)
        ensures
            answers_failure(r, status, text@, parsed),
    {
        if let Some(api_err) = parsed {
            return Error::ApiError(api_err);
        }
        let code = match status {
            400 => StrikeErrorCode::InvalidData,
            401 => StrikeErrorCode::Unauthorized,
            403 => StrikeErrorCode::Forbidden,
            404 => StrikeErrorCode::NotFound,
            409 => StrikeErrorCode::ProcessingConflict,
            422 => StrikeErrorCode::UnprocessableEntity,
            429 => StrikeErrorCode::RateLimitExceeded,
            500 => StrikeErrorCode::InternalServerError,
            502 => StrikeErrorCode::BadGateway,
            503 => StrikeErrorCode::ServiceUnavailable,
            504 => StrikeErrorCode::GatewayTimeout,
            _ => StrikeErrorCode::Unknown,
        };
        let message = if text.unicode_len() == 0 {
            let mut m = String::from_str("HTTP ");
            push_decimal(&mut m, status as u64);
            m.append(": ");
            match canonical_reason(status) {
                Some(p) => m.append(p),
                None => m.append("Unknown"),
            }
            m
        } else {
            String::from_str(text)
        };
        Error::ApiError(
            StrikeApiError {
                trace_id: None,
                data: StrikeApiErrorData {
                    status,
                    code,
                    message,
                    values: Vec::new(),
                    validation_errors: Vec::new(),
                    debug: None,
                },
            },
        )
    }

    /// The outcome of a response: `Ok` for a status in `200..=299`, else the error that
    /// [`Strike::handle_api_error`] makes of it.
    pub fn check_response(&self, status: u16, text: &str, parsed: Option<StrikeApiError>) -> (r:
        Result<(), Error>)
        ensures
            is_success_status(status) <==> r is Ok,
            (200 <= status && status <= 299) <==> r is Ok,
            r matches Err(e) ==> answers_failure(e, status, text@, parsed),
    {
        if 200 <= status && status <= 299 {
            Ok(())
        } else {
            Err(self.handle_api_error(status, text, parsed))
        }
    }
}

} // verus!
