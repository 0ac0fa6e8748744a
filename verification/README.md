# magicblock-chainlink

The link between a rollup and its base chain, written in Rust and verified with Verus. It decides
which accounts of the base chain the rollup clones into its bank, in which state, which of them it
watches, and when it lets them go again.

## Layout

- `src/` is the verified library. It holds the rules, plans and state machines of the link, with
  contracts that say exactly what each of them returns. It does no I/O.
  - `account`, `pubkey`, `delegation_record`, `cloner`: the data that everything else speaks of.
  - `chainlink/fetch_cloner`: from a request for accounts to the clones. `pending_ops` and
    `pending` decide what is fetched, `pipeline`, `ata_projection` and `compression` what it
    becomes, `clone_stages` and `batch_stages` in which order this happens and what is given back
    on failure. `updates`, `update_steps`, `collision`, `program_loader` and `program_reload` do
    the same for updates that subscriptions report.
  - `chainlink/record_stream` and `chainlink/record_mirror`: what is known of delegation records
    from a stream of the chain, and for how long it can be relied upon.
  - `chainlink/evictions`: how accounts leave the rollup.
  - `lru_map`, `pda`, `text` and a few functions elsewhere call outside crates. What the library
    relies on there is stated in the contracts of those functions and named in their comments.
- `app/` runs the library: tasks, channels, clocks, and the traits that stand for the chain, the
  engine and the services around them (`app/ports.rs`).
- `tests/` runs the library on concrete values, with the outside crates linked.

Functions whose names begin with `law_` state what holds of several functions together.
