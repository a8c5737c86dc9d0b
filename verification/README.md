# niffyinsure

The verified core of the NiffyInsure parametric-insurance contract for
Soroban.

- `src/` — the library, verified with Verus:
  - `types.rs`: policies, claims, risk inputs, multiplier tables and the
    claim state machine's terminal states, with addresses as plain values;
  - `validate.rs`: the shared error type and the risk-input and policy-record
    checks;
  - `ledger.rs`: ledger-window constants;
  - `table.rs`: a finite map over distinct keys, the building block of the
    storage model;
  - `storage.rs`: a model of the contract's ledger storage as a value
    (`ContractState`) with every accessor, the voter registry and the id
    counters, and the laws that relate them. The host side does not run this
    model: it keeps the records in Soroban storage and shares with the model
    the registry and counter steps;
  - `policy.rs`: premium quotes, quote-error reporting and policy initiation
    as a sequence of checked steps (which the host drives in the same order),
    with what a successful initiation owes the host (the premium transfer and
    the `PolicyInitiated` event) and the laws of initiation.
- `tests/` — tests of the library on concrete values.
- `app/` — the host side on `soroban-sdk`: the contract types with their
  derives, the storage layout under `DataKey`, address conversion, and the
  initiation and quoting flows that read the ledger, authenticate, transfer
  the premium and publish events around the library's decisions.
