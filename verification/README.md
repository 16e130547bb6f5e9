# mammoth

Verified rules of Mammoth, a rights-based, cycle-driven token issuance protocol on Solana.

- `src/` is the library, written in Verus. Each program instruction is a function from the
  accounts it reads (a plain struct named after the instruction) to the accounts it writes and
  the transfers the runtime must make, with a contract given by an `*_outcome` spec function.
  - `curve.rs`: Step, Linear and ExpLite bonding curves, spot price and purchase cost.
  - `protocol.rs`, `cycle.rs`, `sale.rs`, `rights.rs`, `admin.rs`: the instructions.
  - `authority.rs`: creator and operator permissions.
  - `merkle.rs`: SHA-256 Merkle commitments to rights (SHA-256 itself comes from `sha2`).
  - `accounting.rs`: basis-point shares, protocol fees, rent top-ups.
  - `laws.rs`: properties spanning several instructions.
- `app/` is the Anchor program around the library: account validation, clock and rent,
  token mints and transfers, lamport moves and events.
- `tests/` runs the library on concrete values.
