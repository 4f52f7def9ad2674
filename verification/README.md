# ofborg

The decision logic of the ofborg continuous-integration bot for Nixpkgs,
verified with Verus: what the bot does with comments, webhooks, Hydra build
events, broker deliveries, checkouts and its configuration.

- `src/` is the verified library. Each module states its behaviour in
  `requires`/`ensures` contracts over mathematical models (`Seq`, `Map`,
  spec functions), and the properties that span several calls are public
  proof functions named `law_*`.
- `tests/` runs the library on concrete values.
- `app/` holds the input and output around it: configuration files, the
  HTTP servers, the broker client, git and child processes. It performs
  what the library decides.

Calls into other crates (`hmac`, `sha2`, `hex`, `md5`, `toml`) and into the
parts of the standard library that carry no specification are made through
small wrappers whose contracts are trusted; each one's doc comment says what
it claims of the function it calls.
