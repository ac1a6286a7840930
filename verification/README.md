# ownable

Ownership of a CosmWasm contract by an Abstract governance, with verified rules.

- `src/` is the verified library (Verus):
  - `governance.rs`: the governance details (monarchy, sub-account, external,
    renounced), the address that owns under each, and how each is displayed.
  - `expiration.rs`: deadlines of pending transfers, blocks, when a deadline
    is reached, and how a deadline is displayed.
  - `ownership.rs`: the ownership info, the actions and errors, and the rules:
    only the owner proposes a transfer or renounces, only the pending owner
    accepts, and only before the deadline; the attributes that describe the
    ownership in a response.
  - `laws.rs`: properties that span the actions, proved over the same spec
    functions that the actions' contracts use.
- `app/` is the contract-facing side: the stored item, the verification of
  governance details against the chain, and the serde and error types of
  messages, converted to and from the library's types.
- `tests/` runs the rules on concrete values.

## The owner attribute

`Ownership::into_attributes` writes a monarchy owner as "renounced"; every
other governance kind, and the pending owner, are written as their display
text (abstract-std's `Display`), and a missing field as "none".
