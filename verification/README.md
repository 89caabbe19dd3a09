# dln_node_knots_e2e

End-to-end scenarios for `dln-node-knots` against BTK, Bitcoin Knots after its
BLAKE2b consensus split, with the decisions verified in Verus.

- `activation`: BLAKE2b activates underneath running nodes.
- `knots_backend`: a node runs against a chain that never activates.

A scenario is a plan of steps (`src/plan.rs`). A run of it says what to do next
and judges each reply (`src/rules.rs`, `src/run.rs`); block headers
(`src/header.rs`), channels (`src/channel.rs`) and funding blocks
(`src/funding.rs`) have their own checks. `src/laws.rs` states what every run
that passes has been shown, `src/waits.rs` what every wait comes to. The program
under `app/` talks to the chain, the nodes and the clock.

```
dln_node_knots_e2e activation
```

The shared harness, `dln_e2e_harness`, comes from the exchange's repository.

The scenario's name is the program's argument. It prints `PASS` or `FAIL` and sets its exit status. Built without the
`blake2b` feature the node makes `activation` fail, and that is deliberate.
