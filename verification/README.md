# sumup

The SumUp SDK core, written in Verus. Verus proves the functions under
`src/` against their contracts; the few functions that call outside code
(`hex`, `hmac`, `reqwest`'s URL parser, the system clock) carry contracts that
are trusted, not proved, and the request spans of `src/trace.rs` record
nothing and have none.

## Layout

- `src/webhooks/`: webhook signature checking (`signature.rs`), the
  classification of webhook bodies into typed events (`events.rs`), the
  reusable handler (`handler.rs`), the URL check before an object is fetched
  (`fetch.rs`), and the properties that span these functions
  (`properties.rs`).
- `src/http.rs` and `src/resources/`: the part of the API data model that
  holds neither floating-point numbers nor free-form JSON and, for each
  endpoint, the request it sends (method, path, URL, query parameters in
  order, whether it carries a JSON body) and what each status code of the
  answer becomes (result or error
  variant, and whether the body is read as JSON, bytes or text) as a plain
  value.
- `src/client.rs`: the client configuration (host and bearer token) and the
  per-resource clients.
- `src/version.rs`: the user agent and the runtime headers.
- `src/manifest.rs`, `src/samples.rs`: the build tasks' logic: reading the
  package version from a manifest, checking a catalog of generated code
  samples and laying out the scratch project that compiles them.
- `src/decimal.rs`, `src/hex_codec.rs`, `src/text.rs`: decimal numbers,
  hexadecimal text and header trimming, with their laws.
- `src/mac.rs`, `src/clock.rs`: the trusted boundary to `hmac`/`sha2` and to
  the system clock.
- `app/`: the I/O around the library: serde forms of its types, the reqwest
  transport that sends the request descriptions, the environment, and the
  file-system side of the build tasks.
- `tests/`: tests of the library on concrete values.
