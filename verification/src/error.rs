//! Strike API errors: the error codes, the error response, and the library's error type.

use vstd::prelude::*;

use crate::text::{decimal, push_char, push_decimal};

verus! {


/// Strike API error codes
///
/// These codes indicate the specific type of error that occurred.
/// Codes in the 2xx range indicate success, 4xx range indicate client errors,
/// and 5xx range indicate server errors.
#[derive(Debug, Clone, Copy, PartialEq, Eq, Structural)]
pub enum StrikeErrorCode {
    /// Resource not found (404)
    NotFound,
    /// The server has encountered an unexpected problem (500)
    InternalServerError,
    /// Bad gateway (502)
    BadGateway,
    /// Maintenance mode is active (503)
    MaintenanceMode,
    /// Service is temporarily unavailable (503)
    ServiceUnavailable,
    /// Gateway timeout (504)
    GatewayTimeout,
    /// Rate limit has been exceeded (429)
    RateLimitExceeded,
    /// Too many attempts. Try again in a few minutes (429)
    TooManyAttempts,
    /// Could not process the request at this time. Try again later (409)
    ProcessingConflict,
    /// Invalid or unspecified identity (401)
    Unauthorized,
    /// Insufficient permissions (403)
    Forbidden,
    /// One or more validation errors occurred (400)
    InvalidData,
    /// Invalid OData query (400)
    InvalidDataQuery,
    /// Unprocessable entity (422)
    UnprocessableEntity,
    /// Account is not yet ready. Please retry later (425)
    AccountNotReady,
    /// Invoice has already been paid (422)
    InvalidStateForInvoicePaid,
    /// Invoice has been reversed (422)
    InvalidStateForInvoiceReversed,
    /// Invoice has been cancelled (422)
    InvalidStateForInvoiceCancelled,
    /// Recipient is currently unable to receive payments (422)
    InvalidRecipient,
    /// Invoice payment is currently being processed (422)
    ProcessingPayment,
    /// Invoice with correlation id already exists (409)
    DuplicateInvoice,
    /// Self-payments are not allowed (422)
    SelfPaymentNotAllowed,
    /// User does not support the given currency (422)
    UserCurrencyUnavailable,
    /// Lightning network is currently unavailable (503)
    LnUnavailable,
    /// Exchange rate is unavailable for the given currency pair (422)
    ExchangeRateNotAvailable,
    /// Insufficient funds (422)
    BalanceTooLow,
    /// Amount must be greater than zero (422)
    InvalidAmount,
    /// The amount can't be above the limit (422)
    AmountTooHigh,
    /// The amount can't be below the limit (422)
    AmountTooLow,
    /// The payment method is not supported (422)
    UnsupportedPaymentMethod,
    /// Invalid payment method (422)
    InvalidPaymentMethod,
    /// The requested currency is not supported (422)
    CurrencyUnsupported,
    /// Account verification failed (422)
    PlaidLinkingFailed,
    /// Payment method must be in the READY state (422)
    PaymentMethodNotReady,
    /// Payout originator must be in the APPROVED state (422)
    PayoutOriginatorNotApproved,
    /// Payout has already been initiated (422)
    PayoutAlreadyInitiated,
    /// Lightning invoice has expired (422)
    InvalidStateForInvoiceExpired,
    /// Payment was already processed (422)
    PaymentProcessed,
    /// Invalid lightning invoice (422)
    InvalidLnInvoice,
    /// Lightning invoice has already been processed (422)
    LnInvoiceProcessed,
    /// Invalid btc address (422)
    InvalidBitcoinAddress,
    /// Unable to find a lightning payment route (422)
    LnRouteNotFound,
    /// The payment quote has expired (422)
    PaymentQuoteExpired,
    /// A payment quote for the specified idempotency key already exists (422)
    DuplicatePaymentQuote,
    /// Number of transactions limit exceeded (422)
    TooManyTransactions,
    /// A currency exchange quote for the specified idempotency key already exists (422)
    DuplicateCurrencyExchangeQuote,
    /// The currency exchange quote has already been processed (422)
    CurrencyExchangeQuoteProcessed,
    /// The currency exchange quote has expired (422)
    CurrencyExchangeQuoteExpired,
    /// The currency exchange pair is invalid (422)
    CurrencyExchangePairNotSupported,
    /// The exchanged amount is too low (422)
    CurrencyExchangeAmountTooLow,
    /// The number of allowed deposits has been exceeded (422)
    DepositLimitExceeded,
    /// A deposit for the specified idempotency key already exists (422)
    DuplicateDeposit,
    /// Unknown error code (for forward compatibility)
    Unknown,
}

impl StrikeErrorCode {
    /// The variant's name, as `{:?}` writes it.
    pub open spec fn name(self) -> Seq<char> {
        match self {
            StrikeErrorCode::NotFound => "NotFound"@,
            StrikeErrorCode::InternalServerError => "InternalServerError"@,
            StrikeErrorCode::BadGateway => "BadGateway"@,
            StrikeErrorCode::MaintenanceMode => "MaintenanceMode"@,
            StrikeErrorCode::ServiceUnavailable => "ServiceUnavailable"@,
            StrikeErrorCode::GatewayTimeout => "GatewayTimeout"@,
            StrikeErrorCode::RateLimitExceeded => "RateLimitExceeded"@,
            StrikeErrorCode::TooManyAttempts => "TooManyAttempts"@,
            StrikeErrorCode::ProcessingConflict => "ProcessingConflict"@,
            StrikeErrorCode::Unauthorized => "Unauthorized"@,
            StrikeErrorCode::Forbidden => "Forbidden"@,
            StrikeErrorCode::InvalidData => "InvalidData"@,
            StrikeErrorCode::InvalidDataQuery => "InvalidDataQuery"@,
            StrikeErrorCode::UnprocessableEntity => "UnprocessableEntity"@,
            StrikeErrorCode::AccountNotReady => "AccountNotReady"@,
            StrikeErrorCode::InvalidStateForInvoicePaid => "InvalidStateForInvoicePaid"@,
            StrikeErrorCode::InvalidStateForInvoiceReversed => "InvalidStateForInvoiceReversed"@,
            StrikeErrorCode::InvalidStateForInvoiceCancelled => "InvalidStateForInvoiceCancelled"@,
            StrikeErrorCode::InvalidRecipient => "InvalidRecipient"@,
            StrikeErrorCode::ProcessingPayment => "ProcessingPayment"@,
            StrikeErrorCode::DuplicateInvoice => "DuplicateInvoice"@,
            StrikeErrorCode::SelfPaymentNotAllowed => "SelfPaymentNotAllowed"@,
            StrikeErrorCode::UserCurrencyUnavailable => "UserCurrencyUnavailable"@,
            StrikeErrorCode::LnUnavailable => "LnUnavailable"@,
            StrikeErrorCode::ExchangeRateNotAvailable => "ExchangeRateNotAvailable"@,
            StrikeErrorCode::BalanceTooLow => "BalanceTooLow"@,
            StrikeErrorCode::InvalidAmount => "InvalidAmount"@,
            StrikeErrorCode::AmountTooHigh => "AmountTooHigh"@,
            StrikeErrorCode::AmountTooLow => "AmountTooLow"@,
            StrikeErrorCode::UnsupportedPaymentMethod => "UnsupportedPaymentMethod"@,
            StrikeErrorCode::InvalidPaymentMethod => "InvalidPaymentMethod"@,
            StrikeErrorCode::CurrencyUnsupported => "CurrencyUnsupported"@,
            StrikeErrorCode::PlaidLinkingFailed => "PlaidLinkingFailed"@,
            StrikeErrorCode::PaymentMethodNotReady => "PaymentMethodNotReady"@,
            StrikeErrorCode::PayoutOriginatorNotApproved => "PayoutOriginatorNotApproved"@,
            StrikeErrorCode::PayoutAlreadyInitiated => "PayoutAlreadyInitiated"@,
            StrikeErrorCode::InvalidStateForInvoiceExpired => "InvalidStateForInvoiceExpired"@,
            StrikeErrorCode::PaymentProcessed => "PaymentProcessed"@,
            StrikeErrorCode::InvalidLnInvoice => "InvalidLnInvoice"@,
            StrikeErrorCode::LnInvoiceProcessed => "LnInvoiceProcessed"@,
            StrikeErrorCode::InvalidBitcoinAddress => "InvalidBitcoinAddress"@,
            StrikeErrorCode::LnRouteNotFound => "LnRouteNotFound"@,
            StrikeErrorCode::PaymentQuoteExpired => "PaymentQuoteExpired"@,
            StrikeErrorCode::DuplicatePaymentQuote => "DuplicatePaymentQuote"@,
            StrikeErrorCode::TooManyTransactions => "TooManyTransactions"@,
            StrikeErrorCode::DuplicateCurrencyExchangeQuote => "DuplicateCurrencyExchangeQuote"@,
            StrikeErrorCode::CurrencyExchangeQuoteProcessed => "CurrencyExchangeQuoteProcessed"@,
            StrikeErrorCode::CurrencyExchangeQuoteExpired => "CurrencyExchangeQuoteExpired"@,
            StrikeErrorCode::CurrencyExchangePairNotSupported => "CurrencyExchangePairNotSupported"@,
            StrikeErrorCode::CurrencyExchangeAmountTooLow => "CurrencyExchangeAmountTooLow"@,
            StrikeErrorCode::DepositLimitExceeded => "DepositLimitExceeded"@,
            StrikeErrorCode::DuplicateDeposit => "DuplicateDeposit"@,
            StrikeErrorCode::Unknown => "Unknown"@,
        }
    }

    /// The variant's name, as `{:?}` writes it.
    pub fn name_str(&self) -> (r: &'static str)
        ensures
            r@ == self.name(),
    {
        match self {
            StrikeErrorCode::NotFound => "NotFound",
            StrikeErrorCode::InternalServerError => "InternalServerError",
            StrikeErrorCode::BadGateway => "BadGateway",
            StrikeErrorCode::MaintenanceMode => "MaintenanceMode",
            StrikeErrorCode::ServiceUnavailable => "ServiceUnavailable",
            StrikeErrorCode::GatewayTimeout => "GatewayTimeout",
            StrikeErrorCode::RateLimitExceeded => "RateLimitExceeded",
            StrikeErrorCode::TooManyAttempts => "TooManyAttempts",
            StrikeErrorCode::ProcessingConflict => "ProcessingConflict",
            StrikeErrorCode::Unauthorized => "Unauthorized",
            StrikeErrorCode::Forbidden => "Forbidden",
            StrikeErrorCode::InvalidData => "InvalidData",
            StrikeErrorCode::InvalidDataQuery => "InvalidDataQuery",
            StrikeErrorCode::UnprocessableEntity => "UnprocessableEntity",
            StrikeErrorCode::AccountNotReady => "AccountNotReady",
            StrikeErrorCode::InvalidStateForInvoicePaid => "InvalidStateForInvoicePaid",
            StrikeErrorCode::InvalidStateForInvoiceReversed => "InvalidStateForInvoiceReversed",
            StrikeErrorCode::InvalidStateForInvoiceCancelled => "InvalidStateForInvoiceCancelled",
            StrikeErrorCode::InvalidRecipient => "InvalidRecipient",
            StrikeErrorCode::ProcessingPayment => "ProcessingPayment",
            StrikeErrorCode::DuplicateInvoice => "DuplicateInvoice",
            StrikeErrorCode::SelfPaymentNotAllowed => "SelfPaymentNotAllowed",
            StrikeErrorCode::UserCurrencyUnavailable => "UserCurrencyUnavailable",
            StrikeErrorCode::LnUnavailable => "LnUnavailable",
            StrikeErrorCode::ExchangeRateNotAvailable => "ExchangeRateNotAvailable",
            StrikeErrorCode::BalanceTooLow => "BalanceTooLow",
            StrikeErrorCode::InvalidAmount => "InvalidAmount",
            StrikeErrorCode::AmountTooHigh => "AmountTooHigh",
            StrikeErrorCode::AmountTooLow => "AmountTooLow",
            StrikeErrorCode::UnsupportedPaymentMethod => "UnsupportedPaymentMethod",
            StrikeErrorCode::InvalidPaymentMethod => "InvalidPaymentMethod",
            StrikeErrorCode::CurrencyUnsupported => "CurrencyUnsupported",
            StrikeErrorCode::PlaidLinkingFailed => "PlaidLinkingFailed",
            StrikeErrorCode::PaymentMethodNotReady => "PaymentMethodNotReady",
            StrikeErrorCode::PayoutOriginatorNotApproved => "PayoutOriginatorNotApproved",
            StrikeErrorCode::PayoutAlreadyInitiated => "PayoutAlreadyInitiated",
            StrikeErrorCode::InvalidStateForInvoiceExpired => "InvalidStateForInvoiceExpired",
            StrikeErrorCode::PaymentProcessed => "PaymentProcessed",
            StrikeErrorCode::InvalidLnInvoice => "InvalidLnInvoice",
            StrikeErrorCode::LnInvoiceProcessed => "LnInvoiceProcessed",
            StrikeErrorCode::InvalidBitcoinAddress => "InvalidBitcoinAddress",
            StrikeErrorCode::LnRouteNotFound => "LnRouteNotFound",
            StrikeErrorCode::PaymentQuoteExpired => "PaymentQuoteExpired",
            StrikeErrorCode::DuplicatePaymentQuote => "DuplicatePaymentQuote",
            StrikeErrorCode::TooManyTransactions => "TooManyTransactions",
            StrikeErrorCode::DuplicateCurrencyExchangeQuote => "DuplicateCurrencyExchangeQuote",
            StrikeErrorCode::CurrencyExchangeQuoteProcessed => "CurrencyExchangeQuoteProcessed",
            StrikeErrorCode::CurrencyExchangeQuoteExpired => "CurrencyExchangeQuoteExpired",
            StrikeErrorCode::CurrencyExchangePairNotSupported => "CurrencyExchangePairNotSupported",
            StrikeErrorCode::CurrencyExchangeAmountTooLow => "CurrencyExchangeAmountTooLow",
            StrikeErrorCode::DepositLimitExceeded => "DepositLimitExceeded",
            StrikeErrorCode::DuplicateDeposit => "DuplicateDeposit",
            StrikeErrorCode::Unknown => "Unknown",
        }
    }
}

/// Validation error codes
///
/// These codes indicate specific validation failures when the main error code is INVALID_DATA.
#[derive(Debug, Clone, Copy, PartialEq, Eq, Structural)]
pub enum ValidationErrorCode {
    /// General invalid data error
    InvalidData,
    /// The field is required
    InvalidDataRequired,
    /// The field must be a value with a specific length
    InvalidDataLength,
    /// The field must be a value with a minimum length
    InvalidDataMinlength,
    /// The field must be a value with a maximum length
    InvalidDataMaxlength,
    /// The field contains invalid value
    InvalidDataValue,
    /// The field contains unsupported currency
    InvalidDataCurrency,
    /// Unknown validation error code (for forward compatibility)
    Unknown,
}

impl StrikeErrorCode {
    /// The HTTP status code that usually comes with this error code.
    pub open spec fn typical_status_spec(self) -> u16 {
        match self {
            StrikeErrorCode::NotFound => 404,
            StrikeErrorCode::InternalServerError => 500,
            StrikeErrorCode::BadGateway => 502,
            StrikeErrorCode::MaintenanceMode => 503,
            StrikeErrorCode::ServiceUnavailable => 503,
            StrikeErrorCode::GatewayTimeout => 504,
            StrikeErrorCode::LnUnavailable => 503,
            StrikeErrorCode::RateLimitExceeded => 429,
            StrikeErrorCode::TooManyAttempts => 429,
            StrikeErrorCode::ProcessingConflict => 409,
            StrikeErrorCode::Unauthorized => 401,
            StrikeErrorCode::Forbidden => 403,
            StrikeErrorCode::InvalidData => 400,
            StrikeErrorCode::InvalidDataQuery => 400,
            StrikeErrorCode::UnprocessableEntity => 422,
            StrikeErrorCode::AccountNotReady => 425,
            StrikeErrorCode::DuplicateInvoice => 409,
            _ => 422,
        }
    }

    /// Whether a request that failed with this code may succeed when it is sent again.
    pub open spec fn is_retryable_spec(self) -> bool {
        match self {
            StrikeErrorCode::InternalServerError
            | StrikeErrorCode::BadGateway
            | StrikeErrorCode::ServiceUnavailable
            | StrikeErrorCode::GatewayTimeout
            | StrikeErrorCode::RateLimitExceeded
            | StrikeErrorCode::TooManyAttempts
            | StrikeErrorCode::ProcessingConflict
            | StrikeErrorCode::AccountNotReady
            | StrikeErrorCode::LnUnavailable
            | StrikeErrorCode::ExchangeRateNotAvailable => true,
            _ => false,
        }
    }

    /// Get the typical HTTP status code for this error
    pub fn typical_status(&self) -> (r: u16)
        ensures
            r == self.typical_status_spec(),
    {
        match self {
            StrikeErrorCode::NotFound => 404,
            StrikeErrorCode::InternalServerError => 500,
            StrikeErrorCode::BadGateway => 502,
            StrikeErrorCode::MaintenanceMode => 503,
            StrikeErrorCode::ServiceUnavailable => 503,
            StrikeErrorCode::GatewayTimeout => 504,
            StrikeErrorCode::LnUnavailable => 503,
            StrikeErrorCode::RateLimitExceeded => 429,
            StrikeErrorCode::TooManyAttempts => 429,
            StrikeErrorCode::ProcessingConflict => 409,
            StrikeErrorCode::Unauthorized => 401,
            StrikeErrorCode::Forbidden => 403,
            StrikeErrorCode::InvalidData => 400,
            StrikeErrorCode::InvalidDataQuery => 400,
            StrikeErrorCode::UnprocessableEntity => 422,
            StrikeErrorCode::AccountNotReady => 425,
            StrikeErrorCode::DuplicateInvoice => 409,
            _ => 422,
        }
    }

    /// Check if this error is retryable
    pub fn is_retryable(&self) -> (r: bool)
        ensures
            r == self.is_retryable_spec(),
    {
        match self {
            StrikeErrorCode::InternalServerError
            | StrikeErrorCode::BadGateway
            | StrikeErrorCode::ServiceUnavailable
            | StrikeErrorCode::GatewayTimeout
            | StrikeErrorCode::RateLimitExceeded
            | StrikeErrorCode::TooManyAttempts
            | StrikeErrorCode::ProcessingConflict
            | StrikeErrorCode::AccountNotReady
            | StrikeErrorCode::LnUnavailable
            | StrikeErrorCode::ExchangeRateNotAvailable => true,
            _ => false,
        }
    }
}

/// Debug information included in error responses (development mode only)
#[derive(Debug, Clone, PartialEq, Eq)]
pub struct DebugInfo {
    /// Full debug info with stack trace
    pub full: Option<String>,
    /// Additional debug info
    pub body: Option<String>,
}

/// The index of the first entry whose key is `key`, or the number of entries when none is.
pub open spec fn first_key_index<V>(entries: Seq<(String, V)>, key: Seq<char>) -> int
    decreases entries.len(),
{
    if entries.len() == 0 {
        0
    } else if entries[0].0@ == key {
        0
    } else {
        1 + first_key_index(entries.drop_first(), key)
    }
}

/// The first index holding a key lies within the entries, or just past them.
pub proof fn lemma_first_key_index_bounds<V>(entries: Seq<(String, V)>, key: Seq<char>)
    ensures
        0 <= first_key_index(entries, key) <= entries.len(),
        first_key_index(entries, key) < entries.len() ==> entries[first_key_index(
            entries,
            key,
        )].0@ == key,
        forall|k: int|
            0 <= k < first_key_index(entries, key) ==> #[trigger] entries[k].0@ != key,
    decreases entries.len(),
{
    if entries.len() > 0 && entries[0].0@ != key {
        lemma_first_key_index_bounds(entries.drop_first(), key);
        assert forall|k: int| 0 <= k < first_key_index(entries, key) implies #[trigger] entries[k].0@
            != key by {
            if k > 0 {
                assert(entries[k] == entries.drop_first()[k - 1]);
            }
        }
    }
}

/// No two entries have the same key (what a map keyed by strings guarantees).
pub open spec fn keys_unique<V>(entries: Seq<(String, V)>) -> bool {
    forall|i: int, j: int|
        0 <= i < entries.len() && 0 <= j < entries.len() && i != j ==> #[trigger] entries[i].0@
            != #[trigger] entries[j].0@
}

/// Validation error details for specific field validation failures
#[derive(Debug, Clone, PartialEq)]
pub struct ValidationError {
    /// Validation error code
    pub code: ValidationErrorCode,
    /// Error message (for developer reference only) - should not be shown to the user
    pub message: String,
    /// Additional validation error properties, one entry per property name
    pub values: Vec<(String, serde_json::Value)>,
}

/// Strike API error data containing detailed error information
#[derive(Debug, Clone, PartialEq)]
pub struct StrikeApiErrorData {
    /// HTTP status code - matches the status code of the response
    pub status: u16,
    /// Error code - can contain any error code from the Strike API error codes
    pub code: StrikeErrorCode,
    /// Error message (for developer reference only) - should not be shown to the user
    pub message: String,
    /// Additional error properties, one entry per property name
    pub values: Vec<(String, serde_json::Value)>,
    /// Validation errors (present when code is INVALID_DATA), one entry per field name,
    /// each with the validation errors of that field
    pub validation_errors: Vec<(String, Vec<ValidationError>)>,
    /// Debug information (only in development mode)
    pub debug: Option<DebugInfo>,
}

/// Strike API error response
///
/// For errors (non 2xx responses), Strike includes extra information about what went wrong
/// encoded in the response as JSON. Error responses conform to a standard schema with
/// a trace ID for debugging and detailed error information.
#[derive(Debug, Clone, PartialEq)]
pub struct StrikeApiError {
    /// Unique identifier which represents this request in trace logs
    pub trace_id: Option<String>,
    /// Error details
    pub data: StrikeApiErrorData,
}

/// The text listed for one field's validation errors: `field: message ` for each of them.
pub open spec fn field_errors_text(field: Seq<char>, errors: Seq<ValidationError>) -> Seq<char>
    decreases errors.len(),
{
    if errors.len() == 0 {
        seq![]
    } else {
        field_errors_text(field, errors.drop_last()) + field + ": "@ + errors.last().message@
            + " "@
    }
}

/// The text listed for all validation errors, field after field.
pub open spec fn validation_errors_text(entries: Seq<(String, Vec<ValidationError>)>) -> Seq<char>
    decreases entries.len(),
{
    if entries.len() == 0 {
        seq![]
    } else {
        validation_errors_text(entries.drop_last()) + field_errors_text(
            entries.last().0@,
            entries.last().1@,
        )
    }
}

impl StrikeApiError {
    /// Every key of the error's property maps and validation-error map occurs once.
    pub open spec fn wf(self) -> bool {
        &&& keys_unique(self.data.values@)
        &&& keys_unique(self.data.validation_errors@)
    }

    /// The error as text: `[status] Code: message`, then the validation errors, if any.
    pub open spec fn display(self) -> Seq<char> {
        let head = "["@ + decimal(self.data.status as nat) + "] "@ + self.data.code.name() + ": "@
            + self.data.message@;
        if self.data.validation_errors@.len() > 0 {
            head + " (Validation errors: "@ + validation_errors_text(self.data.validation_errors@)
                + ")"@
        } else {
            head
        }
    }

    /// Get the HTTP status code
    pub fn status(&self) -> (r: u16)
        ensures
            r == self.data.status,
    {
        self.data.status
    }

    /// Get the error code
    pub fn code(&self) -> (r: &StrikeErrorCode)
        ensures
            *r == self.data.code,
    {
        &self.data.code
    }

    /// Get the error message
    pub fn message(&self) -> (r: &str)
        ensures
            r@ == self.data.message@,
    {
        self.data.message.as_str()
    }

    /// Get additional error values
    pub fn values(&self) -> (r: &Vec<(String, serde_json::Value)>)
        ensures
            r@ == self.data.values@,
    {
        &self.data.values
    }

    /// Get validation errors
    pub fn validation_errors(&self) -> (r: &Vec<(String, Vec<ValidationError>)>)
        ensures
            r@ == self.data.validation_errors@,
    {
        &self.data.validation_errors
    }

    /// Check if this is a specific error code
    pub fn is_error_code(&self, code: &StrikeErrorCode) -> (r: bool)
        ensures
            r == (self.data.code == *code),
    {
        self.data.code == *code
    }

    /// Check if this is a validation error
    pub fn is_validation_error(&self) -> (r: bool)
        ensures
            r == (self.data.code == StrikeErrorCode::InvalidData),
    {
        self.data.code == StrikeErrorCode::InvalidData
    }

    /// Check if this is a rate limit error
    pub fn is_rate_limit_error(&self) -> (r: bool)
        ensures
            r == (self.data.code == StrikeErrorCode::RateLimitExceeded || self.data.code
                == StrikeErrorCode::TooManyAttempts),
    {
        match self.data.code {
            StrikeErrorCode::RateLimitExceeded | StrikeErrorCode::TooManyAttempts => true,
            _ => false,
        }
    }

    /// Check if this is a server error (5xx)
    pub fn is_server_error(&self) -> (r: bool)
        ensures
            r == (500 <= self.data.status <= 599),
    {
        self.data.status >= 500 && self.data.status <= 599
    }

    /// Check if this is a client error (4xx)
    pub fn is_client_error(&self) -> (r: bool)
        ensures
            r == (400 <= self.data.status < 500),
    {
        self.data.status >= 400 && self.data.status < 500
    }

    /// Get the value stored under `key` in the error values, if there is one.
    pub fn get_value(&self, key: &str) -> (r: Option<&serde_json::Value>)
        ensures
            0 <= first_key_index(self.data.values@, key@) <= self.data.values@.len(),
            ({
                let entries = self.data.values@;
                let i = first_key_index(entries, key@);
                if i < entries.len() {
                    r == Some(&entries[i].1)
                } else {
                    r is None
                }
            }),
    {
        let wanted = String::from_str(key);
        let entries = &self.data.values;
        proof {
            lemma_first_key_index_bounds(entries@, key@);
            assert(entries@.skip(0) =~= entries@);
        }
        let n = entries.len();
        let mut i: usize = 0;
        while i < n
            invariant
                n == entries@.len(),
                i <= n,
                wanted@ == key@,
                entries@ == self.data.values@,
                0 <= first_key_index(entries@, key@) <= entries@.len(),
                first_key_index(entries@, key@) == i + first_key_index(entries@.skip(i as int), key@),
            decreases n - i,
        {
            let ghost rest = entries@.skip(i as int);
            assert(rest.len() > 0);
            assert(rest[0] == entries@[i as int]);
            if entries[i].0 == wanted {
                assert(first_key_index(rest, key@) == 0);
                return Some(&entries[i].1);
            }
            assert(rest.drop_first() =~= entries@.skip(i + 1));
            i = i + 1;
        }
        assert(entries@.skip(n as int).len() == 0);
        None
    }

    /// Get the trace ID if available
    pub fn trace_id(&self) -> (r: Option<&str>)
        ensures
            match self.trace_id {
                Some(t) => r matches Some(s) && s@ == t@,
                None => r is None,
            },
    {
        match &self.trace_id {
            Some(t) => Some(t.as_str()),
            None => None,
        }
    }

    /// The error as text: `[status] Code: message`, followed by
    /// ` (Validation errors: field: message ...)` when there are validation errors.
    pub fn to_string(&self) -> (r: String)
        ensures
            r@ == self.display(),
    {
        let mut s = String::from_str("[");
        push_decimal(&mut s, self.data.status as u64);
        s.append("] ");
        s.append(self.data.code.name_str());
        s.append(": ");
        s.append(self.data.message.as_str());
        let entries = &self.data.validation_errors;
        if entries.len() > 0 {
            s.append(" (Validation errors: ");
            let ghost base = s@;
            let n = entries.len();
            let mut i: usize = 0;
            while i < n
                invariant
                    n == entries@.len(),
                    i <= n,
                    s@ == base + validation_errors_text(entries@.take(i as int)),
                decreases n - i,
            {
                let field = &entries[i].0;
                let errors = &entries[i].1;
                let ghost before = s@;
                let m = errors.len();
                let mut j: usize = 0;
                while j < m
                    invariant
                        m == errors@.len(),
                        j <= m,
                        s@ == before + field_errors_text(field@, errors@.take(j as int)),
                    decreases m - j,
                {
                    assert(errors@.take(j + 1).drop_last() =~= errors@.take(j as int));
                    s.append(field.as_str());
                    s.append(": ");
                    s.append(errors[j].message.as_str());
                    s.append(" ");
                    j = j + 1;
                }
                assert(errors@.take(m as int) =~= errors@);
                assert(entries@.take(i + 1).drop_last() =~= entries@.take(i as int));
                i = i + 1;
            }
            assert(entries@.take(n as int) =~= entries@);
            s.append(")");
        }
        s
    }
}

/// Strike rs error
///
/// This enum represents all possible errors that can occur when using the Strike SDK.
#[derive(Debug)]
pub enum Error {
    /// Not Found
    NotFound,
    /// Invalid Url
    InvalidUrl(url::ParseError),
    /// From reqwest error
    ReqwestError(reqwest::Error),
    /// From serde error
    SerdeError(serde_json::Error),
    /// Strike API error
    ApiError(StrikeApiError),
}

impl From<url::ParseError> for Error {
    fn from(e: url::ParseError) -> (r: Self)
        ensures
            r == Error::InvalidUrl(e),
    {
        Error::InvalidUrl(e)
    }
}

impl vstd::std_specs::convert::FromSpecImpl<url::ParseError> for Error {
    open spec fn obeys_from_spec() -> bool {
        true
    }

    open spec fn from_spec(e: url::ParseError) -> Self {
        Error::InvalidUrl(e)
    }
}

impl From<reqwest::Error> for Error {
    fn from(e: reqwest::Error) -> (r: Self)
        ensures
            r == Error::ReqwestError(e),
    {
        Error::ReqwestError(e)
    }
}

impl vstd::std_specs::convert::FromSpecImpl<reqwest::Error> for Error {
    open spec fn obeys_from_spec() -> bool {
        true
    }

    open spec fn from_spec(e: reqwest::Error) -> Self {
        Error::ReqwestError(e)
    }
}

impl From<serde_json::Error> for Error {
    fn from(e: serde_json::Error) -> (r: Self)
        ensures
            r == Error::SerdeError(e),
    {
        Error::SerdeError(e)
    }
}

impl vstd::std_specs::convert::FromSpecImpl<serde_json::Error> for Error {
    open spec fn obeys_from_spec() -> bool {
        true
    }

    open spec fn from_spec(e: serde_json::Error) -> Self {
        Error::SerdeError(e)
    }
}

impl From<StrikeApiError> for Error {
    fn from(e: StrikeApiError) -> (r: Self)
        ensures
            r == Error::ApiError(e),
    {
        Error::ApiError(e)
    }
}

impl vstd::std_specs::convert::FromSpecImpl<StrikeApiError> for Error {
    open spec fn obeys_from_spec() -> bool {
        true
    }

    open spec fn from_spec(e: StrikeApiError) -> Self {
        Error::ApiError(e)
    }
}

} // verus!
