# vydex_escrow

Escrow of token payments between a buyer and a seller on Solana. Each deal has
a vault of its own, which only the deal can sign for. The payment leaves the
vault when the buyer approves, when the review period is over, when the delivery
is overdue, or when the arbiter decides a dispute.

The rules are a library that is verified with Verus; the on-chain program around
it reads the accounts, asks the library, and carries out what it decides.

- `src/state.rs`, `event.rs`, `error.rs`, `action.rs`, `accounts.rs`,
  `pubkey.rs`, `constants.rs`: the values that the rules speak of.
- `src/address.rs`: the addresses of the configuration, the deals and the vaults.
- `src/shares.rs`, `payout.rs`: fees, shares and payments.
- `src/configure.rs`, `funding.rs`, `delivery.rs`, `release.rs`, `refund.rs`,
  `dispute.rs`: the instructions. Each says in its contract when it is refused,
  with which error, and otherwise what it stores, pays and reports.
- `src/lifecycle.rs`, `laws.rs`: the steps of a deal and what holds of the escrow
  as a whole: a deal is paid out once, to its parties only, and the fee is at
  most a tenth.
- `app/`: the Anchor program.
- `tests/`: scenarios on concrete values.
