# prism_core

The core of a debugger for failed Soroban (Stellar smart contract)
transactions: it classifies a transaction's host error, names the error code,
renders Soroban values as JSON, attributes a failure to the contract call that
caused it, decodes authorization entries, and decides how the RPC client
retries. The library is written in Verus: its logic in `src/` is verified
against its `requires`/`ensures` contracts, and its calls into outside
crates go through small trusted wrappers (marked `external_body`) whose
contracts state what the outside code is relied on to do.

## Layout

- `src/` — the verified library.
  - `text`, `json`: decimal and hex rendering, and a JSON value model with
    sorted object keys and its text form.
  - `xdr`, `xdr_types`: the library's model of the Soroban XDR values its
    logic reads, and the conversions from `stellar_xdr`'s decoded values.
  - `decode`: host error categories and summaries (`hosterror`), error code
    tables (`mappings`), value rendering (`scval_to_json`), failure
    attribution (`cross_contract`), authorization entries (`auth_*`),
    transaction JSON shaping and the report (`mod`, `report`, `diagnostic`),
    and contract error resolution from WASM specs.
  - `rpc`: the retry and backoff state machines of the RPC client and of the
    plain JSON-RPC transport, and the batching of ledger-key requests.
  - `spec`: reading the `contractspecv0` section of contract WASM.
  - `replay`, `debugger`: ledger state reconstruction, state diffs and
    resource profiles.
  - `taxonomy`: the error taxonomy database.
  - `types`, `cache`, `cli`: network configuration, reports, contract IDs,
    cache categories and the command-line choices.
- `app/` — the command-line program around the library: HTTP, files,
  caches, metrics, serde copies of the library's types, and the async loops
  that carry out the library's decisions.
- `tests/` — tests of the library on concrete values.

Calls into outside crates (`stellar_xdr`, `stellar_strkey`, `base64`,
`wasmparser`, `reqwest`'s status codes) are made from `src/` through small
trusted wrappers whose contracts name what the call returns.
