# hello_dao

A small on-chain treasury and governance program for Solana, with its logic
verified in Verus.

An organisation (`DaoV1`) has a vote threshold and a treasury (`VaultV1`).
Anyone may open a proposal (`ProposalV1`) to pay an amount from the treasury
to a recipient, as long as the treasury holds that amount. Each vote adds the
voter's balance to the proposal's votes, one vote per lamport, saturating at
`u64::MAX`; the proposal passes once its votes reach the threshold. A passed
proposal can be executed once: the amount moves from the treasury to the
recipient and the proposal is marked executed.

## Layout

- `src/` — the verified library
  - `pubkey.rs`, `account.rs`, `error.rs` — addresses, the accounts an
    instruction sees, the refusals
  - `codec.rs`, `states/`, `instructions/mod.rs` — the byte layout of the
    stored records and of the instructions, with read-back laws
  - `address.rs`, `seeds.rs` — program-derived addresses and their seeds
  - `cpi.rs` — the system program's account-creation call
  - `instructions/` — the four instructions: account checks, address checks,
    and the state changes of each
  - `lifecycle.rs` — laws over a proposal's life across instructions
- `app/` — the entrypoint: it converts the runtime's accounts, makes the
  system program calls the library asks for, and writes results back
- `tests/` — tests of the library on concrete values

Setting up the organisation and opening a proposal each create an account
through the system program. The library gives the call to make
(`dao_account_request`, `vault_account_request`, `proposal_account_request`)
and, once the account exists, writes its record (`init_dao`, `init_vault`,
`init_proposal`); the entrypoint makes the call in between.
