//! The outside types that the library carries through without reading them.

use vstd::prelude::*;

use reqwest::Error as HttpClientError;
use serde_json::Error as JsonError;

verus! {

#[verifier::external_type_specification]
#[verifier::external_body]
pub struct ExJsonValue(serde_json::Value);

#[verifier::external_type_specification]
#[verifier::external_body]
pub struct ExJsonError(JsonError);

#[verifier::external_type_specification]
#[verifier::external_body]
pub struct ExUrlParseError(url::ParseError);

#[verifier::external_type_specification]
#[verifier::external_body]
pub struct ExHttpClientError(HttpClientError);

#[verifier::external_type_specification]
#[verifier::external_body]
pub struct ExHttpClient(reqwest::Client);

/// `Clone` for `reqwest::Client`, a handle that shares its connection pool; nothing is claimed.
pub assume_specification[ <reqwest::Client as Clone>::clone ](c: &reqwest::Client) -> reqwest::Client;

/// `From<&str> for String` (std): the documentation says it converts the `&str` into a
/// `String` holding the same text; that is what is claimed.
pub assume_specification<'a>[ <String as From<&'a str>>::from ](s: &str) -> (r: String)
    ensures
        r@ == s@,
;

/// `From<T> for T` (std's reflexive impl): returns its argument; that is what is claimed.
pub assume_specification<A>[ <A as From<A>>::from ](t: A) -> (r: A)
    ensures
        r == t,
;

} // verus!
