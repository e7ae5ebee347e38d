# sdkwork_payment

The commerce payment capability as a verified library: payment and refund
lifecycles, money amounts, storage identities and lock keys, owner-order
checkout and confirmation decisions, provider webhook identity, storage and
settlement, the Alipay request and notification rules, and the read models
of the payment APIs. The functions in `src/` carry contracts that Verus
proves, except the small trusted wrappers through which calls into
`chrono`, `serde_json`, `sha2`, `rsa`, `base64`, `urlencoding` and a few
std functions go: their contracts name what those crates compute and are
believed without proof.

Layout:

- `src/` — the verified library, one module per concern (`status`, `money`,
  `refund`, `checkout`, `confirmation`, `webhook`, `alipay`, `records`, ...).
- `tests/` — tests run against the compiled library.
- `app/` — a small command-line front that reads files and arguments, calls
  the library and prints JSON; it also keeps the local credential master key.
