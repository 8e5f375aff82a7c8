# arnelify_native

The C bindings of the Arnelify server, with their logic verified by Verus.

C programs drive five kinds of server (HTTP/1.1, HTTP/2, WebSocket, HTTP/3,
WebTransport) through exported functions: create a server from JSON options,
register handlers and a logger, start and stop it, and, while a handler runs,
act on the request's stream (status code, headers, body, compression, ...).

- `src/` is the verified library. `bindings.rs` has one function per
  exported symbol over a `Runtime`; `service.rs` says what each binding does
  with its arguments; `servers.rs` and `streams.rs` hold the tables of
  servers and of in-flight streams; `config.rs` and `options.rs` read the
  server options; `json.rs` holds JSON documents (parsed by `serde_json`);
  `headers.rs`, `decimal.rs` and `text.rs` decode arguments and build the
  diagnostic lines; `laws.rs` states properties that hold across calls.
- `app/` is the C ABI: the `extern "C"` functions, which read C strings and
  buffers, print the diagnostic lines, and call into the library, plus the
  entry points through which a server engine reaches the C handlers.
- `tests/` exercises the library on concrete values.

The server engine itself (sockets, protocols, TLS) is not part of this crate:
the library records, for each server and each stream, the calls that the C
side makes, for the engine to carry out.
