//! Invoice queries: OData filters, pagination and the invoice endpoints' paths.

use vstd::prelude::*;

use vstd::string::to_string_from_display_ensures;

use crate::{url_join, Error, Strike};
use crate::text::{join_strings, join_with, push_signed_decimal, signed_decimal, url_encode, url_encode_spec, views};

verus! {

/// Supported filter operations for OData queries.
#[derive(Clone, Copy, Debug, PartialEq, Eq, Structural)]
pub enum FilterOp {
    /// Equal to
    Eq,
    /// Not equal to
    Ne,
    /// Greater than
    Gt,
    /// Less than
    Lt,
    /// Greater than or equal to
    Ge,
    /// Less than or equal to
    Le,
}

impl FilterOp {
    /// The OData keyword of the operation.
    pub open spec fn keyword(self) -> Seq<char> {
        match self {
            FilterOp::Eq => "eq"@,
            FilterOp::Ne => "ne"@,
            FilterOp::Gt => "gt"@,
            FilterOp::Lt => "lt"@,
            FilterOp::Ge => "ge"@,
            FilterOp::Le => "le"@,
        }
    }

    fn keyword_str(&self) -> (r: &'static str)
        ensures
            r@ == self.keyword(),
    {
        match self {
            FilterOp::Eq => "eq",
            FilterOp::Ne => "ne",
            FilterOp::Gt => "gt",
            FilterOp::Lt => "lt",
            FilterOp::Ge => "ge",
            FilterOp::Le => "le",
        }
    }
}

/// Represents a single OData filter condition for invoice queries.
#[derive(Clone, Debug, PartialEq)]
pub struct Filter {
    /// The field to filter on (as specified in the API spec)
    pub field: &'static str,
    /// The filter operation (e.g., Eq, Ne, Gt, etc.)
    pub op: FilterOp,
    /// The value to compare against
    pub value: String,
}

impl Filter {
    /// The OData text of the condition: `field op 'value'`.
    pub open spec fn render(self) -> Seq<char> {
        self.field@ + " "@ + self.op.keyword() + " '"@ + self.value@ + "'"@
    }

    /// A filter that compares `field` by `op` with the text that `value` displays as.
    pub open spec fn made<T: core::fmt::Display + ?Sized>(
        self,
        field: &'static str,
        op: FilterOp,
        value: &T,
    ) -> bool {
        &&& self.field == field
        &&& self.op == op
        &&& to_string_from_display_ensures::<T>(value, self.value)
    }

    fn with_op<T: core::fmt::Display + ?Sized>(field: &'static str, op: FilterOp, value: &T) -> (r:
        Self)
        ensures
            r.made(field, op, value),
    {
        Filter { field, op, value: value.to_string() }
    }

    /// Create an equality filter (field eq value)
    pub fn eq<T: core::fmt::Display + ?Sized>(field: &'static str, value: &T) -> (r: Self)
        ensures
            r.made(field, FilterOp::Eq, value),
    {
        Self::with_op(field, FilterOp::Eq, value)
    }

    /// Create a not-equal filter (field ne value)
    pub fn ne<T: core::fmt::Display + ?Sized>(field: &'static str, value: &T) -> (r: Self)
        ensures
            r.made(field, FilterOp::Ne, value),
    {
        Self::with_op(field, FilterOp::Ne, value)
    }

    /// Create a greater-than filter (field gt value)
    pub fn gt<T: core::fmt::Display + ?Sized>(field: &'static str, value: &T) -> (r: Self)
        ensures
            r.made(field, FilterOp::Gt, value),
    {
        Self::with_op(field, FilterOp::Gt, value)
    }

    /// Create a less-than filter (field lt value)
    pub fn lt<T: core::fmt::Display + ?Sized>(field: &'static str, value: &T) -> (r: Self)
        ensures
            r.made(field, FilterOp::Lt, value),
    {
        Self::with_op(field, FilterOp::Lt, value)
    }

    /// Create a greater-than-or-equal filter (field ge value)
    pub fn ge<T: core::fmt::Display + ?Sized>(field: &'static str, value: &T) -> (r: Self)
        ensures
            r.made(field, FilterOp::Ge, value),
    {
        Self::with_op(field, FilterOp::Ge, value)
    }

    /// Create a less-than-or-equal filter (field le value)
    pub fn le<T: core::fmt::Display + ?Sized>(field: &'static str, value: &T) -> (r: Self)
        ensures
            r.made(field, FilterOp::Le, value),
    {
        Self::with_op(field, FilterOp::Le, value)
    }

    /// Convert the filter to an OData filter string (e.g., "field eq 'value'")
    pub fn to_string(&self) -> (r: String)
        ensures
            r@ == self.render(),
    {
        let mut s = String::from_str(self.field);
        s.append(" ");
        s.append(self.op.keyword_str());
        s.append(" '");
        s.append(self.value.as_str());
        s.append("'");
        s
    }
}

/// The filters' texts joined by ` and `.
pub open spec fn filter_clause(filters: Seq<Filter>) -> Seq<char> {
    join_with(filters.map_values(|f: Filter| f.render()), " and "@)
}

/// Query parameters for getting invoices, supporting flexible OData-style filtering and pagination.
#[derive(Clone, Debug, PartialEq)]
pub struct InvoiceQueryParams {
    /// OData filters as a list of Filter objects
    pub filters: Vec<Filter>,
    /// Order the results using OData syntax
    pub orderby: Option<String>,
    /// Skip the specified number of entries
    pub skip: Option<i32>,
    /// Get the top X number of records (max 100)
    pub top: Option<i32>,
}

/// The largest page size the API hands out.
pub const MAX_TOP: i32 = 100;

impl InvoiceQueryParams {
    /// No filters, no ordering, no pagination.
    pub open spec fn is_empty_query(self) -> bool {
        &&& self.filters@.len() == 0
        &&& self.orderby is None
        &&& self.skip is None
        &&& self.top is None
    }

    /// The `name=value` parameters of the query, in the order in which they are written.
    pub open spec fn query_parts(self) -> Seq<Seq<char>> {
        let p0: Seq<Seq<char>> = if self.filters@.len() > 0 {
            seq!["$filter="@ + url_encode_spec(filter_clause(self.filters@))]
        } else {
            seq![]
        };
        let p1 = match self.orderby {
            Some(o) => p0.push("$orderby="@ + url_encode_spec(o@)),
            None => p0,
        };
        let p2 = match self.skip {
            Some(s) => p1.push("$skip="@ + signed_decimal(s as int)),
            None => p1,
        };
        match self.top {
            Some(t) => p2.push("$top="@ + signed_decimal(t as int)),
            None => p2,
        }
    }

    /// The query string: empty without parameters, else `?` and the parameters joined by `&`.
    pub open spec fn query_string(self) -> Seq<char> {
        let parts = self.query_parts();
        if parts.len() == 0 {
            seq![]
        } else {
            "?"@ + join_with(parts, "&"@)
        }
    }

    /// Create new query parameters with no filters or pagination.
    pub fn new() -> (r: Self)
        ensures
            r.is_empty_query(),
    {
        InvoiceQueryParams { filters: Vec::new(), orderby: None, skip: None, top: None }
    }

    /// Add a filter condition to the query parameters.
    ///
    /// Filters are combined with logical AND in the resulting OData query.
    pub fn filter(self, filter: Filter) -> (r: Self)
        ensures
            r.filters@ == self.filters@.push(filter),
            r.orderby == self.orderby,
            r.skip == self.skip,
            r.top == self.top,
    {
        let mut s = self;
        s.filters.push(filter);
        s
    }

    /// Set the orderby parameter (OData syntax).
    ///
    /// The ordering is whatever text `String::from` makes of `orderby` (for a `&str` or a
    /// `String`, that same text).
    pub fn orderby<S>(self, orderby: S) -> (r: Self) where String: From<S>
        ensures
            r.filters == self.filters,
            r.orderby matches Some(o) && call_ensures(String::from, (orderby,), o),
            r.skip == self.skip,
            r.top == self.top,
    {
        let mut s = self;
        s.orderby = Some(String::from(orderby));
        s
    }

    /// Set the number of records to skip.
    pub fn skip(self, skip: i32) -> (r: Self)
        ensures
            r.filters == self.filters,
            r.orderby == self.orderby,
            r.skip == Some(skip),
            r.top == self.top,
    {
        let mut s = self;
        s.skip = Some(skip);
        s
    }

    /// Set the maximum number of records to return (capped at 100).
    pub fn top(self, top: i32) -> (r: Self)
        ensures
            r.filters == self.filters,
            r.orderby == self.orderby,
            r.skip == self.skip,
            r.top == Some(if top < MAX_TOP { top } else { MAX_TOP }),
    {
        let mut s = self;
        s.top = Some(if top < MAX_TOP { top } else { MAX_TOP });
        s
    }

    /// Convert the query parameters to a query string suitable for an HTTP request.
    ///
    /// Filters are joined with 'and' and URL-encoded. Other parameters are appended as needed.
    pub fn to_query_string(&self) -> (r: String)
        ensures
            r@ == self.query_string(),
    {
        let mut params: Vec<String> = Vec::new();
        let ghost parts = self.query_parts();
        if self.filters.len() > 0 {
            let clause = filter_clause_string(&self.filters);
            let mut p = String::from_str("$filter=");
            let enc = url_encode(clause.as_str());
            p.append(enc.as_str());
            params.push(p);
        }
        match &self.orderby {
            Some(o) => {
                let mut p = String::from_str("$orderby=");
                let enc = url_encode(o.as_str());
                p.append(enc.as_str());
                params.push(p);
            },
            None => {},
        }
        match self.skip {
            Some(v) => {
                let mut p = String::from_str("$skip=");
                push_signed_decimal(&mut p, v as i64);
                params.push(p);
            },
            None => {},
        }
        match self.top {
            Some(v) => {
                let mut p = String::from_str("$top=");
                push_signed_decimal(&mut p, v as i64);
                params.push(p);
            },
            None => {},
        }
        assert(views(params@) =~= parts);
        if params.len() == 0 {
            String::new()
        } else {
            let mut q = String::from_str("?");
            let joined = join_strings(&params, "&");
            q.append(joined.as_str());
            q
        }
    }
}

impl Default for InvoiceQueryParams {
    fn default() -> (r: Self)
        ensures
            r.is_empty_query(),
    {
        InvoiceQueryParams::new()
    }
}

/// The path that invoices are created at.
pub const INVOICES_PATH: &'static str = "/v1/invoices";

/// The directory that incoming invoices are found in, by their IDs.
pub const INVOICES_DIR: &'static str = "/v1/invoices/";

/// The query string of optional parameters: that of no parameters when there are none.
pub open spec fn optional_query_string(params: Option<InvoiceQueryParams>) -> Seq<char> {
    match params {
        Some(p) => p.query_string(),
        None => seq![],
    }
}

/// The path that lists invoices: `/v1/invoices` and the query string.
pub fn invoices_list_path(params: Option<InvoiceQueryParams>) -> (r: String)
    ensures
        r@ == "/v1/invoices"@ + optional_query_string(params),
{
    let query = match params {
        Some(p) => p.to_query_string(),
        None => InvoiceQueryParams::new().to_query_string(),
    };
    let mut path = String::from_str(INVOICES_PATH);
    path.append(query.as_str());
    path
}

/// The path that quotes an invoice: `/v1/invoices/<id>/quote`.
pub fn invoice_quote_path(invoice_id: &str) -> (r: String)
    ensures
        r@ == "/v1/invoices/"@ + invoice_id@ + "/quote"@,
{
    let mut p = String::from_str("/v1/invoices/");
    p.append(invoice_id);
    p.append("/quote");
    p
}

/// The URL of an incoming invoice: `/v1/invoices/` joined to the API's URL `base`, then the
/// invoice ID joined to that; none when either join fails.
pub open spec fn incoming_invoice_url_spec(base: Seq<char>, invoice_id: Seq<char>) -> Option<
    Seq<char>,
> {
    match url_join(base, INVOICES_DIR@) {
        Some(dir) => url_join(dir, invoice_id),
        None => None,
    }
}

impl Strike {
    /// The URL of an incoming invoice: `/v1/invoices/` resolved against the API's URL, then the
    /// invoice ID resolved against that.
    pub fn incoming_invoice_url(&self, invoice_id: &str) -> (r: Result<String, Error>)
        ensures
            match r {
                Ok(u) => incoming_invoice_url_spec(self.base_url_spec(), invoice_id@) == Some(u@),
                Err(e) => e is InvalidUrl && incoming_invoice_url_spec(
                    self.base_url_spec(),
                    invoice_id@,
                ) is None,
            },
            r matches Ok(u) ==> exists|dir: Seq<char>|
                url_join(self.base_url_spec(), "/v1/invoices/"@) == Some(dir) && url_join(
                    dir,
                    invoice_id@,
                ) == Some(#[trigger] u@),
            r is Err <==> (url_join(self.base_url_spec(), "/v1/invoices/"@) is None || url_join(
                url_join(self.base_url_spec(), "/v1/invoices/"@)->0,
                invoice_id@,
            ) is None),
    {
        let dir = match self.endpoint(INVOICES_DIR) {
            Ok(u) => u,
            Err(e) => {
                return Err(e);
            },
        };
        match crate::join_url(dir.as_str(), invoice_id) {
            Ok(u) => Ok(u),
            Err(e) => Err(Error::InvalidUrl(e)),
        }
    }
}

/// The filters' texts joined by ` and `.
fn filter_clause_string(filters: &Vec<Filter>) -> (r: String)
    ensures
        r@ == filter_clause(filters@),
{
    let mut texts: Vec<String> = Vec::new();
    let n = filters.len();
    let mut i: usize = 0;
    while i < n
        invariant
            n == filters@.len(),
            i <= n,
            views(texts@) =~= filters@.take(i as int).map_values(|f: Filter| f.render()),
        decreases n - i,
    {
        let t = filters[i].to_string();
        let ghost before = texts@;
        texts.push(t);
        assert(texts@ == before.push(t));
        assert(views(texts@) =~= views(before).push(t@));
        assert(filters@.take(i + 1) =~= filters@.take(i as int).push(filters@[i as int]));
        i = i + 1;
    }
    assert(filters@.take(n as int) == filters@);
    join_strings(&texts, " and ")
}

} // verus!
