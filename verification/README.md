# strike_rs

A client library for the Strike API (<https://strike.me/>), written in Verus.

- `src/` is the verified library: error codes and the API error response, the invoice query
  builder and its OData query string, the endpoints' paths, the client's setup, and the rule
  that turns a response's status and body into success or an `Error`. `src/laws.rs` holds the
  properties proved across functions.
- `app/` is the network side: serde forms of the library's types, the response types (their
  amounts are floating-point numbers), and the asynchronous HTTP calls, which ask the library
  for URLs and for the verdict on each response.
- `tests/` runs the library with the real outside crates.
