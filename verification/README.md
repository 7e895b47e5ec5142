# ln_multihop

A regtest run of a multi-hop Lightning payment: bitcoind mines and funds,
Alice opens a channel to Bob and Bob one to Carol, Carol issues an invoice,
Alice pays it through Bob, and the run saves the payment hash, preimage,
invoice, payer and payee ids, Bob's fee and the forwarded payment hash, one
per line, to `../out.txt`.

- `src/` is the verified library. `run` holds the whole run as a machine:
  given its state and what the last action gave (a reply's body, a command's
  output, a failure, the end of a pause, the time), it decides the next
  action, and `shown_line` gives the line printed for a reply that the run
  shows. The machine reads JSON through `serde_json` (behind trusted
  wrappers), and decides with the verified helpers of `replies`,
  `requests`, `poll`, `report` and `text`. Its laws say where each item of
  the record comes from, which channels are funded, and that the payment
  follows the channel and route waits.
- `app/main.rs` performs the machine's actions (bitcoind RPC, the nodes' REST
  interfaces with `reqwest`, `docker exec`, sleeping, the clock, the file
  system) and hands back what they gave.
- `tests/` runs the library on concrete replies, including a whole run.
