# proofkit

On-chain verified credentials for XION, as three CosmWasm contracts:

- **issuer registry**: which issuers are trusted for which credential types;
- **credential registry**: credential schemas and the proofs recorded
  against them, which any application can query (`IsVerified`);
- **credential verifier**: checks ZK proofs and DKIM-signed emails, keeps a
  record of each verification and has the credential registry record the
  proof.

The decision logic of all three is a library verified with Verus; the
CosmWasm entry points, storage and wire formats are a thin layer around it.

## Layout

- `src/common/`: address verdicts and framework errors (`api`), responses,
  pagination, and string helpers (byte order of stored keys, decimal
  rendering, joining).
- `src/types/`: messages, stored records and responses of each contract,
  and the requests of XION's native ZK and DKIM modules.
- `src/contracts/<contract>/`: the contract's state (`contract`), its errors
  (`error`) and the properties proved of it (`laws`); the verifier also has
  `verification` (module requests and the proof receipt hash).
- `src/contracts/flow.rs`: properties that span the contracts, such as an
  accepted credential becoming verified in the credential registry.
- `tests/`: the contracts' behaviour on concrete scenarios, including the
  three contracts working together.
- `app/`: the CosmWasm entry points, storage layout, serde forms of the
  types, and the issuer registry lookup.

Each execute function's contract states, over the contract's abstract
state, the exact new state and the exact response or error; each query's
contract states its exact answer. The chain's address validation reaches
the library as data: an `Api` value listing, for each address string a
message names, whether the chain accepted it.
