use strike_rs::invoice::{invoice_quote_path, invoices_list_path, INVOICES_PATH};
use strike_rs::{Filter, FilterOp, InvoiceQueryParams};

#[test]
fn test_invoice_query_params_empty() {
    let params = InvoiceQueryParams::new();
    assert_eq!(params.to_query_string(), "");
}

#[test]
fn test_invoice_query_params_single() {
    let params = InvoiceQueryParams::new().filter(Filter::eq("state", "PAID"));
    assert_eq!(params.to_query_string(), "?$filter=state%20eq%20%27PAID%27");
}

#[test]
fn test_invoice_query_params_multiple() {
    let params = InvoiceQueryParams::new()
        .filter(Filter::eq("state", "PAID"))
        .filter(Filter::eq("correlationId", "foo"))
        .orderby("created desc")
        .top(10)
        .skip(5);
    let query = params.to_query_string();
    assert!(query.starts_with("?"));
    assert!(
        query.contains("$filter=state%20eq%20%27PAID%27%20and%20correlationId%20eq%20%27foo%27")
            || query.contains(
                "$filter=correlationId%20eq%20%27foo%27%20and%20state%20eq%20%27PAID%27"
            )
    );
    assert!(query.contains("$orderby=created%20desc"));
    assert!(query.contains("$top=10"));
    assert!(query.contains("$skip=5"));
}

#[test]
fn test_invoice_query_params_top_limit() {
    let params = InvoiceQueryParams::new().top(150); // Should be limited to 100
    assert_eq!(params.top, Some(100));
}

#[test]
fn query_string_full_order_and_separators() {
    let params = InvoiceQueryParams::new()
        .filter(Filter::eq("state", "PAID"))
        .filter(Filter::eq("correlationId", "foo"))
        .orderby("created desc")
        .top(10)
        .skip(5);
    assert_eq!(
        params.to_query_string(),
        "?$filter=state%20eq%20%27PAID%27%20and%20correlationId%20eq%20%27foo%27&$orderby=created%20desc&$skip=5&$top=10"
    );
}

#[test]
fn top_below_limit_kept_and_at_limit() {
    assert_eq!(InvoiceQueryParams::new().top(7).top, Some(7));
    assert_eq!(InvoiceQueryParams::new().top(100).top, Some(100));
    assert_eq!(InvoiceQueryParams::new().top(101).top, Some(100));
    assert_eq!(InvoiceQueryParams::new().top(-3).top, Some(-3));
    assert_eq!(InvoiceQueryParams::new().top(-3).to_query_string(), "?$top=-3");
}

#[test]
fn skip_and_top_extremes() {
    let params = InvoiceQueryParams::new().skip(i32::MIN).top(0);
    assert_eq!(params.to_query_string(), "?$skip=-2147483648&$top=0");
    let params = InvoiceQueryParams::new().skip(i32::MAX);
    assert_eq!(params.to_query_string(), "?$skip=2147483647");
}

#[test]
fn default_is_empty() {
    let params = InvoiceQueryParams::default();
    assert!(params.filters.is_empty());
    assert_eq!(params.orderby, None);
    assert_eq!(params.skip, None);
    assert_eq!(params.top, None);
    assert_eq!(params, InvoiceQueryParams::new());
}

#[test]
fn filter_constructors_and_text() {
    assert_eq!(Filter::eq("a", "1").to_string(), "a eq '1'");
    assert_eq!(Filter::ne("a", "1").to_string(), "a ne '1'");
    assert_eq!(Filter::gt("a", "1").to_string(), "a gt '1'");
    assert_eq!(Filter::lt("a", "1").to_string(), "a lt '1'");
    assert_eq!(Filter::ge("a", "1").to_string(), "a ge '1'");
    assert_eq!(Filter::le("a", "1").to_string(), "a le '1'");
    assert_eq!(Filter::gt("amount", &5).to_string(), "amount gt '5'");
    assert_eq!(Filter::eq("currency", &String::from("USD")).to_string(), "currency eq 'USD'");
    let f = Filter::ge("amount", "10");
    assert_eq!(f.field, "amount");
    assert_eq!(f.op, FilterOp::Ge);
    assert_eq!(f.value, "10");
}

#[test]
fn filters_keep_their_order() {
    let params = InvoiceQueryParams::new()
        .filter(Filter::gt("created", "2024"))
        .filter(Filter::lt("created", "2025"));
    assert_eq!(params.filters.len(), 2);
    assert_eq!(params.filters[0].op, FilterOp::Gt);
    assert_eq!(params.filters[1].op, FilterOp::Lt);
}

#[test]
fn values_are_percent_encoded() {
    let params = InvoiceQueryParams::new()
        .filter(Filter::eq("description", "a&b=c?d#e é~-._"))
        .orderby("x+y");
    assert_eq!(
        params.to_query_string(),
        "?$filter=description%20eq%20%27a%26b%3Dc%3Fd%23e%20%C3%A9~-._%27&$orderby=x%2By"
    );
}

#[test]
fn orderby_takes_owned_text() {
    let params = InvoiceQueryParams::new().orderby("created desc".to_string());
    assert_eq!(params.orderby, Some("created desc".to_string()));
    assert_eq!(params.to_query_string(), "?$orderby=created%20desc");
}

#[test]
fn invoice_paths() {
    assert_eq!(INVOICES_PATH, "/v1/invoices");
    assert_eq!(invoices_list_path(None), "/v1/invoices");
    assert_eq!(
        invoices_list_path(Some(InvoiceQueryParams::new().top(5).skip(0))),
        "/v1/invoices?$skip=0&$top=5"
    );
    assert_eq!(invoices_list_path(Some(InvoiceQueryParams::new())), "/v1/invoices");
    assert_eq!(invoice_quote_path("abc-1"), "/v1/invoices/abc-1/quote");
}
