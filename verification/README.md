# defi_vault

A staking vault with a verified core. Users deposit tokens into a vault, keep a position in it,
and earn reward tokens every second in proportion to their share of the stake.

    reward_per_token_delta = elapsed_seconds * rate * PRECISION / total_staked
    earned                 = staked_amount * (reward_per_token_stored - reward_debt) / PRECISION

with `PRECISION = 1_000_000_000`. The accumulator is brought up to date on every deposit,
withdrawal, claim and change of the rate, before anything else changes. A number that does not
fit is a `MathOverflow`; no amount ever wraps around.

## Layout

* `src/`: the library, verified with Verus. It decides what each instruction answers, from plain
  values to plain values. Instructions that move tokens come in two halves: the first answers
  with the transfer to be made, the second (`finish_...`) books it once it has been made.
* `app/`: the vault as an Anchor program. It stores accounts, reads the clock, makes the token
  transfers and emits the events.
* `tests/`: tests of the library.

What holds of the vault as a whole is stated and proved in `src/laws.rs` and `src/ledger.rs`:
among others that a deposit buys no past rewards, that a pause halts deposits alone, that the
total is the sum of the stakes and what the transfers left in the treasury, and that rewards
claimed and claimable never exceed the rewards emitted.

The derivation of program addresses is the one of the chain's SDK; the library takes from it only
that it depends on nothing but its seeds and the program, and that an address that was found is
the one that its bump seed creates.
