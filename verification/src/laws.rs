//! Properties that hold across the library's functions.

use vstd::prelude::*;
use vstd::utf8::encode_utf8;

use crate::error::{first_key_index, lemma_first_key_index_bounds, StrikeApiError, StrikeErrorCode};
use crate::invoice::{filter_clause, incoming_invoice_url_spec, Filter, FilterOp, InvoiceQueryParams};
use crate::text::{
    decimal, is_unreserved_byte, join_with, percent_encode_bytes, signed_decimal, url_encode_spec,
};
use crate::{
    answers_failure, canonical_reason_phrase, chosen_api_url, fallback_code, fallback_message,
    is_success_status, url_join, Currency, Error,
};

verus! {

/// A query string is empty exactly when the parameters hold no filter, ordering or paging,
/// and otherwise it starts with `?`.
pub proof fn law_query_string_empty_iff_no_parameters(p: InvoiceQueryParams)
    ensures
        (p.query_string().len() == 0) <==> p.is_empty_query(),
        !p.is_empty_query() ==> p.query_string()[0] == '?',
{
    reveal_strlit("?");
    let parts = p.query_parts();
    if !p.is_empty_query() {
        assert(parts.len() > 0);
        assert(p.query_string() == "?"@ + crate::text::join_with(parts, "&"@));
    }
}

/// A filter made from a text compares with exactly that text.
pub proof fn law_filter_value_is_the_text(f: Filter, field: &'static str, op: FilterOp, value: &str)
    requires
        f.made(field, op, value),
    ensures
        f.value@ == value@,
        f.render() == field@ + " "@ + op.keyword() + " '"@ + value@ + "'"@,
{
    broadcast use vstd::string::to_string_from_display_ensures_for_str;

}

/// A character that a percent-encoded text may hold: one left as it is, or `%`.
pub open spec fn is_encoded_char(c: char) -> bool {
    c == '%' || (c as u32 <= 255 && is_unreserved_byte(c as u8))
}

proof fn lemma_percent_encoded_chars(bytes: Seq<u8>)
    ensures
        forall|i: int|
            0 <= i < percent_encode_bytes(bytes).len() ==> is_encoded_char(
                #[trigger] percent_encode_bytes(bytes)[i],
            ),
    decreases bytes.len(),
{
    if bytes.len() > 0 {
        lemma_percent_encoded_chars(bytes.drop_first());
        let b = bytes[0];
        let head = crate::text::percent_encode_byte(b);
        let tail = percent_encode_bytes(bytes.drop_first());
        assert(percent_encode_bytes(bytes) == head + tail);
        assert forall|i: int| 0 <= i < head.len() implies is_encoded_char(#[trigger] head[i]) by {
            if !is_unreserved_byte(b) && i > 0 {
                let d: u8 = if i == 1 { b / 16 } else { b % 16 };
                assert(d < 16);
            }
        }
        assert forall|i: int|
            0 <= i < percent_encode_bytes(bytes).len() implies is_encoded_char(
                #[trigger] percent_encode_bytes(bytes)[i],
            ) by {
            if i < head.len() {
                assert(percent_encode_bytes(bytes)[i] == head[i]);
            } else {
                assert(percent_encode_bytes(bytes)[i] == tail[i - head.len()]);
            }
        }
    }
}

/// Percent-encoding leaves only letters, digits, `-`, `.`, `_`, `~` and `%` in a value, so a
/// value put in a query string cannot hold a separator (`&`, `=`, `?`, `#`) or a space.
pub proof fn law_url_encoding_is_query_safe(s: Seq<char>)
    ensures
        forall|i: int|
            0 <= i < url_encode_spec(s).len() ==> is_encoded_char(#[trigger] url_encode_spec(s)[i]),
{
    lemma_percent_encoded_chars(encode_utf8(s));
}

/// In a well-formed error each key occurs once, so the value that `get_value` finds under a key
/// is that of the one entry holding the key.
pub proof fn law_get_value_finds_the_only_entry(e: StrikeApiError, key: Seq<char>, i: int)
    requires
        e.wf(),
        0 <= i < e.data.values@.len(),
        e.data.values@[i].0@ == key,
    ensures
        first_key_index(e.data.values@, key) == i,
{
    lemma_first_key_index_bounds(e.data.values@, key);
    let j = first_key_index(e.data.values@, key);
    if j != i {
        if j < i {
            assert(e.data.values@[j].0@ == key);
        } else {
            assert(e.data.values@[i].0@ != key);
        }
    }
}

/// Every error code's typical status is an HTTP error status (`400..=599`).
pub proof fn law_typical_status_is_error_status(code: StrikeErrorCode)
    ensures
        400 <= code.typical_status_spec() <= 599,
{
}

/// The rate-limit codes are retryable.
pub proof fn law_rate_limit_codes_are_retryable(code: StrikeErrorCode)
    requires
        code == StrikeErrorCode::RateLimitExceeded || code == StrikeErrorCode::TooManyAttempts,
    ensures
        code.is_retryable_spec(),
{
}

/// A status is never both a client error (`400..=499`) and a server error (`500..=599`).
pub proof fn law_client_and_server_errors_exclusive(status: u16)
    ensures
        !((400 <= status < 500) && (500 <= status <= 599)),
{
}

/// The code made up for a failed response of a known status has that status as its typical
/// status; every other status gets `Unknown`.
pub proof fn law_fallback_code_has_the_status(status: u16)
    ensures
        fallback_code(status) != StrikeErrorCode::Unknown ==> fallback_code(
            status,
        ).typical_status_spec() == status,
        fallback_code(status) == StrikeErrorCode::Unknown <==> !(status == 400 || status == 401
            || status == 403 || status == 404 || status == 409 || status == 422 || status == 429
            || status == 500 || status == 502 || status == 503 || status == 504),
{
}

/// The code made up for a failed response is retryable exactly for the statuses of a conflict
/// (409), a rate limit (429) and the server errors 500, 502, 503 and 504.
pub proof fn law_fallback_code_retryable(status: u16)
    ensures
        fallback_code(status).is_retryable_spec() <==> (status == 409 || status == 429 || status
            == 500 || status == 502 || status == 503 || status == 504),
{
}

/// Different currencies have different codes.
pub proof fn law_currency_codes_distinct(a: Currency, b: Currency)
    ensures
        a != b ==> a.code_spec() != b.code_spec(),
{
    reveal_strlit("USD");
    reveal_strlit("EUR");
    reveal_strlit("BTC");
    reveal_strlit("USDT");
    reveal_strlit("GBP");
    reveal_strlit("AUD");
    if a != b {
        let x = a.code_spec();
        let y = b.code_spec();
        if x.len() == y.len() {
            assert(x[0] != y[0] || x[1] != y[1] || x[2] != y[2]);
        }
    }
}

/// A response succeeds exactly when its status is a 2xx status (`200..=299`), as
/// `StatusCode::is_success` decides in `reqwest`.
pub proof fn law_success_is_exactly_2xx(status: u16)
    ensures
        is_success_status(status) <==> (200 <= status && status <= 299),
{
}

/// A client is made with the URL it is given, and with `https://api.strike.me` when it is given
/// none.
pub proof fn law_client_uses_the_given_url(api_url: Option<String>)
    ensures
        api_url matches Some(u) ==> chosen_api_url(api_url) == u@,
        api_url is None ==> chosen_api_url(api_url) == "https://api.strike.me"@,
{
}

/// An incoming invoice's URL is resolved against the client's own API URL: `/v1/invoices/`
/// joined to it, then the invoice ID joined to that.
pub proof fn law_incoming_invoice_url_resolves_against_base(base: Seq<char>, invoice_id: Seq<char>)
    ensures
        incoming_invoice_url_spec(base, invoice_id) is Some <==> (url_join(base, "/v1/invoices/"@) is Some
            && url_join(url_join(base, "/v1/invoices/"@)->0, invoice_id) is Some),
        url_join(base, "/v1/invoices/"@) matches Some(dir) ==> incoming_invoice_url_spec(
            base,
            invoice_id,
        ) == url_join(dir, invoice_id),
{
}

/// Joining: nothing for no parts, the part itself for one, and one more part adds the
/// separator and that part at the end.
pub proof fn law_join_with_appends(parts: Seq<Seq<char>>, part: Seq<char>, sep: Seq<char>)
    ensures
        join_with(Seq::<Seq<char>>::empty(), sep) == Seq::<char>::empty(),
        join_with(seq![part], sep) == part,
        parts.len() > 0 ==> join_with(parts.push(part), sep) == join_with(parts, sep) + sep + part,
{
    assert(parts.push(part).drop_last() == parts);
}

/// A single filter's clause is its text, and each further filter adds ` and ` and its text at
/// the end: every filter is kept, in order.
pub proof fn law_filter_clause_joins_every_filter(filters: Seq<Filter>, f: Filter)
    ensures
        filter_clause(seq![f]) == f.render(),
        filters.len() > 0 ==> filter_clause(filters.push(f)) == filter_clause(filters) + " and "@
            + f.render(),
{
    let r = |g: Filter| g.render();
    assert(seq![f].map_values(r) == seq![f.render()]);
    if filters.len() > 0 {
        let m = filters.push(f).map_values(r);
        assert(m.drop_last() == filters.map_values(r));
        assert(m.last() == f.render());
    }
}

/// The clause's length is the length of every filter's text plus five (` and `) between each
/// two neighbours.
pub open spec fn rendered_length(filters: Seq<Filter>) -> int
    decreases filters.len(),
{
    if filters.len() == 0 {
        0
    } else {
        rendered_length(filters.drop_last()) + filters.last().render().len()
    }
}

/// The filter clause holds every filter's text and ` and ` between each two of them.
pub proof fn law_filter_clause_length(filters: Seq<Filter>)
    requires
        filters.len() > 0,
    ensures
        filter_clause(filters).len() == rendered_length(filters) + 5 * (filters.len() - 1),
    decreases filters.len(),
{
    reveal_strlit(" and ");
    if filters.len() == 1 {
        assert(filters == seq![filters[0]]);
        law_filter_clause_joins_every_filter(Seq::empty(), filters[0]);
        assert(filters.drop_last() == Seq::<Filter>::empty());
    } else {
        let init = filters.drop_last();
        law_filter_clause_length(init);
        law_filter_clause_joins_every_filter(init, filters.last());
        assert(init.push(filters.last()) == filters);
    }
}

/// The query parameters with `top` set.
pub open spec fn with_top(p: InvoiceQueryParams, t: i32) -> InvoiceQueryParams {
    InvoiceQueryParams { filters: p.filters, orderby: p.orderby, skip: p.skip, top: Some(t) }
}

/// The query parameters with `skip` set.
pub open spec fn with_skip(p: InvoiceQueryParams, s: i32) -> InvoiceQueryParams {
    InvoiceQueryParams { filters: p.filters, orderby: p.orderby, skip: Some(s), top: p.top }
}

/// The query parameters with `orderby` set.
pub open spec fn with_orderby(p: InvoiceQueryParams, o: String) -> InvoiceQueryParams {
    InvoiceQueryParams { filters: p.filters, orderby: Some(o), skip: p.skip, top: p.top }
}

/// With only filters, the query string is `?$filter=` and the percent-encoded filter clause.
pub proof fn law_query_string_of_filters(p: InvoiceQueryParams)
    requires
        p.filters@.len() > 0,
        p.orderby is None,
        p.skip is None,
        p.top is None,
    ensures
        p.query_string() == "?"@ + ("$filter="@ + url_encode_spec(filter_clause(p.filters@))),
{
}

/// Setting `top` on parameters without it adds `$top=<n>` as the last parameter.
pub proof fn law_query_string_top_comes_last(p: InvoiceQueryParams, t: i32)
    requires
        p.top is None,
    ensures
        with_top(p, t).query_string() == if p.is_empty_query() {
            "?"@ + ("$top="@ + signed_decimal(t as int))
        } else {
            p.query_string() + "&"@ + ("$top="@ + signed_decimal(t as int))
        },
{
    let parts = p.query_parts();
    let q = with_top(p, t);
    assert(q.query_parts() == parts.push("$top="@ + signed_decimal(t as int)));
    if parts.len() > 0 {
        law_join_with_appends(parts, "$top="@ + signed_decimal(t as int), "&"@);
    } else {
        assert(parts.push("$top="@ + signed_decimal(t as int)) == seq!["$top="@ + signed_decimal(t as int)]);
    }
}

/// Setting `skip` on parameters without `skip` and `top` adds `$skip=<n>` as the last parameter.
pub proof fn law_query_string_skip_after_filter_and_order(p: InvoiceQueryParams, s: i32)
    requires
        p.skip is None,
        p.top is None,
    ensures
        with_skip(p, s).query_string() == if p.is_empty_query() {
            "?"@ + ("$skip="@ + signed_decimal(s as int))
        } else {
            p.query_string() + "&"@ + ("$skip="@ + signed_decimal(s as int))
        },
{
    let parts = p.query_parts();
    let q = with_skip(p, s);
    assert(q.query_parts() == parts.push("$skip="@ + signed_decimal(s as int)));
    if parts.len() > 0 {
        law_join_with_appends(parts, "$skip="@ + signed_decimal(s as int), "&"@);
    } else {
        assert(parts.push("$skip="@ + signed_decimal(s as int)) == seq!["$skip="@ + signed_decimal(s as int)]);
    }
}

/// Setting `orderby` on parameters with no ordering or paging adds `$orderby=` and the
/// percent-encoded ordering as the last parameter.
pub proof fn law_query_string_orderby_after_filter(p: InvoiceQueryParams, o: String)
    requires
        p.orderby is None,
        p.skip is None,
        p.top is None,
    ensures
        with_orderby(p, o).query_string() == if p.is_empty_query() {
            "?"@ + ("$orderby="@ + url_encode_spec(o@))
        } else {
            p.query_string() + "&"@ + ("$orderby="@ + url_encode_spec(o@))
        },
{
    let parts = p.query_parts();
    let q = with_orderby(p, o);
    assert(q.query_parts() == parts.push("$orderby="@ + url_encode_spec(o@)));
    if parts.len() > 0 {
        law_join_with_appends(parts, "$orderby="@ + url_encode_spec(o@), "&"@);
    } else {
        assert(parts.push("$orderby="@ + url_encode_spec(o@)) == seq!["$orderby="@ + url_encode_spec(o@)]);
    }
}

/// The number that a text of decimal digits stands for.
pub open spec fn digits_value(s: Seq<char>) -> int
    decreases s.len(),
{
    if s.len() == 0 {
        0
    } else {
        digits_value(s.drop_last()) * 10 + (s.last() as int - 48)
    }
}

/// A decimal numeral is made of digits, stands for the number, and has no leading zero.
pub proof fn law_decimal_reads_back(n: nat)
    ensures
        decimal(n).len() > 0,
        forall|i: int| 0 <= i < decimal(n).len() ==> '0' <= #[trigger] decimal(n)[i] <= '9',
        digits_value(decimal(n)) == n,
        n > 0 ==> decimal(n)[0] != '0',
    decreases n,
{
    let c = ((n % 10 + 48) as u8) as char;
    assert(c as int == n % 10 + 48);
    if n < 10 {
        assert(decimal(n) == seq![c]);
        assert(decimal(n).drop_last() == Seq::<char>::empty());
        assert(n % 10 == n);
        assert(digits_value(decimal(n)) == digits_value(Seq::<char>::empty()) * 10 + (c as int - 48));
    }
    if n >= 10 {
        law_decimal_reads_back(n / 10);
        let d = decimal(n / 10);
        assert(decimal(n) == d.push(((n % 10 + 48) as u8) as char));
        assert(decimal(n).drop_last() == d);
        assert(decimal(n).last() == c);
        assert(digits_value(decimal(n)) == digits_value(d) * 10 + (c as int - 48));
        assert(digits_value(d) == n / 10);
        assert((n / 10) * 10 + n % 10 == n) by (nonlinear_arith);
        assert(digits_value(decimal(n)) == n);
        assert(decimal(n)[0] == d[0]);
    }
}

/// A negative number's numeral is `-` and the numeral of its magnitude; any other number's is
/// its decimal numeral.
pub proof fn law_signed_decimal_sign(i: int)
    ensures
        i < 0 ==> signed_decimal(i)[0] == '-' && signed_decimal(i).drop_first() == decimal(
            (-i) as nat,
        ),
        i >= 0 ==> signed_decimal(i) == decimal(i as nat),
{
    if i < 0 {
        assert((seq!['-'] + decimal((-i) as nat)).drop_first() == decimal((-i) as nat));
    }
}

/// The retryable codes are exactly the transient ones: server failures (500, 502, 503, 504),
/// rate limits, a processing conflict, an account not ready yet, Lightning unavailable and an
/// exchange rate unavailable. Every other code, such as a low balance, is not.
pub proof fn law_retryable_codes(code: StrikeErrorCode)
    ensures
        code.is_retryable_spec() <==> (code == StrikeErrorCode::InternalServerError || code
            == StrikeErrorCode::BadGateway || code == StrikeErrorCode::ServiceUnavailable || code
            == StrikeErrorCode::GatewayTimeout || code == StrikeErrorCode::RateLimitExceeded
            || code == StrikeErrorCode::TooManyAttempts || code
            == StrikeErrorCode::ProcessingConflict || code == StrikeErrorCode::AccountNotReady
            || code == StrikeErrorCode::LnUnavailable || code
            == StrikeErrorCode::ExchangeRateNotAvailable),
{
}

/// Each code's typical status is the one its documentation gives: 404, 500, 502, 503
/// (maintenance, service unavailable, Lightning unavailable), 504, 429 (rate limit, too many
/// attempts), 409 (conflict, duplicate invoice), 401, 403, 400 (invalid data and query),
/// 425 (account not ready), and 422 for every other code.
pub proof fn law_typical_status_as_documented(code: StrikeErrorCode)
    ensures
        code.typical_status_spec() == (if code == StrikeErrorCode::NotFound {
            404u16
        } else if code == StrikeErrorCode::InternalServerError {
            500u16
        } else if code == StrikeErrorCode::BadGateway {
            502u16
        } else if code == StrikeErrorCode::MaintenanceMode || code
            == StrikeErrorCode::ServiceUnavailable || code == StrikeErrorCode::LnUnavailable {
            503u16
        } else if code == StrikeErrorCode::GatewayTimeout {
            504u16
        } else if code == StrikeErrorCode::RateLimitExceeded || code
            == StrikeErrorCode::TooManyAttempts {
            429u16
        } else if code == StrikeErrorCode::ProcessingConflict || code
            == StrikeErrorCode::DuplicateInvoice {
            409u16
        } else if code == StrikeErrorCode::Unauthorized {
            401u16
        } else if code == StrikeErrorCode::Forbidden {
            403u16
        } else if code == StrikeErrorCode::InvalidData || code
            == StrikeErrorCode::InvalidDataQuery {
            400u16
        } else if code == StrikeErrorCode::AccountNotReady {
            425u16
        } else {
            422u16
        }),
{
}

/// A failed response's message is its body; only an empty body is replaced, by
/// `HTTP <status>: <reason>` (`Unknown` when the status has no standard reason).
pub proof fn law_fallback_message(status: u16, text: Seq<char>)
    ensures
        text.len() > 0 ==> fallback_message(status, text) == text,
        text.len() == 0 ==> fallback_message(status, text) == "HTTP "@ + decimal(status as nat)
            + ": "@ + (if canonical_reason_phrase(status) is Some {
            canonical_reason_phrase(status)->0
        } else {
            "Unknown"@
        }),
{
}

/// A failed response whose body is a Strike error is answered with that error itself; any
/// other is answered with a Strike error that keeps the status, takes its code from the status
/// and carries no trace ID, values, validation errors or debug information.
pub proof fn law_failure_answer(
    r: Error,
    status: u16,
    text: Seq<char>,
    parsed: Option<StrikeApiError>,
)
    ensures
        parsed matches Some(p) ==> (answers_failure(r, status, text, parsed) <==> r
            == Error::ApiError(p)),
        parsed is None ==> (answers_failure(r, status, text, parsed) <==> (r matches Error::ApiError(
            e,
        ) && e.trace_id is None && e.data.status == status && e.data.code == fallback_code(status)
            && e.data.message@ == fallback_message(status, text) && e.data.values@.len() == 0
            && e.data.validation_errors@.len() == 0 && e.data.debug is None)),
{
    if parsed is None {
        if let Error::ApiError(e) = r {
            if e.data.values@.len() == 0 && e.data.validation_errors@.len() == 0 {
                assert(e.wf());
            }
        }
    }
}

/// Without validation errors an error reads `[<status>] <Code>: <message>`; with them, that
/// text is followed by ` (Validation errors: ` and their list.
pub proof fn law_display_layout(e: StrikeApiError)
    ensures
        e.data.validation_errors@.len() == 0 ==> e.display() == "["@ + decimal(
            e.data.status as nat,
        ) + "] "@ + e.data.code.name() + ": "@ + e.data.message@,
        e.data.validation_errors@.len() > 0 ==> e.display().take(
            ("["@ + decimal(e.data.status as nat) + "] "@ + e.data.code.name() + ": "@
                + e.data.message@ + " (Validation errors: "@).len() as int,
        ) == "["@ + decimal(e.data.status as nat) + "] "@ + e.data.code.name() + ": "@
            + e.data.message@ + " (Validation errors: "@,
{
    let head = "["@ + decimal(e.data.status as nat) + "] "@ + e.data.code.name() + ": "@
        + e.data.message@ + " (Validation errors: "@;
    if e.data.validation_errors@.len() > 0 {
        let rest = crate::error::validation_errors_text(e.data.validation_errors@) + ")"@;
        assert(e.display() == head + rest);
        assert((head + rest).take(head.len() as int) == head);
    }
}

} // verus!
