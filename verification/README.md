# misp2sentinel-core

Synchronizes threat-intelligence indicators from a MISP server to Microsoft
Sentinel: events are fetched page by page, their actionable attributes are
turned into STIX 2.1 indicators (one per distinct pattern), and the
indicators are uploaded in batches with retries on rate limiting.

## Layout

- `src/` is the verified library. Every function there carries a contract
  that Verus proves:
  - `config` (environment, overrides, defaults, validation, Key Vault secret
    requests),
  - `misp` (event and attribute rules, paging, the search request, the `local`
    tag flag),
  - `stix` (objects, identifiers, markings, patterns and their escaping),
  - `sync` (conversion of events to indicators, merging, run results, and the
    laws of conversion in `sync/laws.rs`),
  - `sentinel` (batching, retry decisions, upload accounting, the HTTP
    exchanges' texts and answers),
  - `text` and `timestamp` (string and time helpers with exact
    specifications),
  - `trusted` (the few calls into `std`, `chrono` and `uuid` whose results the
    library names but cannot prove).
- `app/` is the program around it: the command line, the Azure Functions and
  AWS Lambda entry points, HTTP clients, Key Vault access, progress bars and
  the serde forms of the library's types.
- `tests/` exercises the library on concrete values.
