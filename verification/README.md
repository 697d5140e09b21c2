# altbase_epic

The backend of an Epic Cash wallet, behind a C interface that takes and gives JSON.

- `src/` is the library, verified with Verus: what requests ask for, when and from where the chain
  is scanned and the marker file that remembers it, balances and transactions, block times, the
  search for the largest amount that can be sent, the order of steps in opening a wallet, taking a
  snapshot and sending, and the replies.
- `app/` is the C interface and the work on the wallet, its node and the disk. It carries out the
  steps that the library asks for and hands back what came of them. It needs the `epic_wallet_*`
  crates of Epic Cash.
- `tests/` run the library on given values.

What a JSON document holds is modelled by `json::JsonTree`; the functions of `serde_json` and
`chrono` that the library calls are trusted to do what their counterparts in `src/json.rs` and
`src/clock.rs` say.
