# rps_game

A rock-paper-scissors betting contract for a CosmWasm chain, written in Verus.

Players bet a native coin (`upaxi`) and a cw20 token. The creator opens a game,
a second player joins with a choice, and the creator reveals a choice before the
deadline; the winner takes both pots less the house's fee, and a draw returns the
native bets. A join or reveal after the deadline marks the game as timed out and
fails, after which its creator may claim the native bet back; but the chain rolls
back the writes of a failed message, so on the chain the timeout is not kept and
that claim is never reached.

- `src/` is the verified library. Each step of the contract (`contract.rs`)
  takes what was read from storage and returns what is to be stored and
  answered, and states it exactly over spec functions; `store.rs` models what
  one executed message leaves in storage; `laws.rs` proves what holds across
  steps and messages (the winner rule, the shape of stored games, the payout,
  finality of completed games, status moves, the game counter, timeouts, who
  may act). `external.rs` holds the
  calls into `cosmwasm_std` and `cw20`, with the contracts that are trusted.
- `app/` holds the entry points: storage, address validation, the serde copies
  of the message and state types, and the conversions to the library's types.
- `tests/` runs the steps on concrete values.
