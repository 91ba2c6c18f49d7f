# registry

A staking registry for Solana, verified with Verus. Members deposit tokens,
stake them for pool tokens, and unstake through a timelocked pending
withdrawal; reward vendors drop rewards that members claim pro rata to their
pool tokens, paid directly or through a vesting account of the lockup
program. A small realizor program tells the lockup program when such a
vesting account may be withdrawn.

## Layout

- `src/` — the verified library.
  - `state.rs`, `reward_queue.rs`: the account data as plain values; the
    reward event ring buffer with its window invariant.
  - `borsh.rs`, `codec.rs`: the byte layout of account data, with readers,
    writers and read-back lemmas.
  - `instruction.rs`: instruction data and the choice of method it names.
  - `accounts.rs`: the accounts of each instruction and the checks made on
    them; `client.rs`: the account lists a client builds.
  - `handlers.rs`: the instructions themselves, returning new account data
    and the calls into the token, system and lockup programs.
  - `rewards.rs`: reward eligibility and amounts; `laws.rs`: properties that
    span instructions.
  - `pubkey.rs`, `seeds.rs`: addresses and program derived addresses (the
    derivation itself is solana-program's).
  - `realizor.rs`: the realizor program.
- `tests/`: tests of the library on concrete values.
- `app/`: the on-chain entry points, which load accounts, run the library,
  perform the calls it asks for and write account data back.
