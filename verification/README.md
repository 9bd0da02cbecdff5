# ms_identity_auth

Device code sign-in and token refresh against the Microsoft identity platform, with the
logic verified by Verus.

- `src/` is the verified library: tenant and scope parsing (`tenant`, `scope`, with the
  character rules in `text`), endpoint paths (`url_path`, `config`), durations and instants
  (`timing`), secrets and token texts (`secret`, `tokens`), the conversion of endpoint answers
  into device code flows and token sets (`models`), and the client's decisions: which form to
  send, how to read an answer, and what it means (`client`).
- `app/` is the asynchronous HTTP client built on `reqwest`: it posts the forms that the
  library builds, reads the JSON answers with serde, and passes them back to the library. It
  also holds the error types with their `Display` and `Error` impls and the configuration
  builder.
- `tests/` exercises the library on concrete values.
