# maker

A contract that asks the badge chain's native badge module to register a list
of addresses, on behalf of the account that instantiated it.

- `src/` is the verified library: the message types for the badge module
  (`bindings`), the accepted messages (`msg`), the stored configuration
  (`state`), the errors (`error`) and the entry points as decisions over plain
  values (`contract`), with the laws that tie instantiation and registration
  together.
- `app/` is the contract as the chain sees it: serde-enabled copies of the
  types, the configuration singleton in storage, and the `init` / `handle`
  entry points that load, save, ask the host's address API and convert.
- `tests/` runs the library on concrete values.
