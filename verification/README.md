# serum_staking

Verified logic of the Serum staking registry, written in Verus.

- `src/address.rs`: account addresses and instruction account metadata.
- `src/programs.rs`: the token program, clock and rent ids, program-derived
  addresses and the system program's create-account instruction, read from
  `solana_program` and `spl_token`.
- `src/client.rs`: the accounts of each registry instruction that the client
  sends, the choice of the deposit vault, the vault authority, and the checks
  on the staking pools' asset lists.
- `src/stake.rs`: the stake instruction's account order and admission checks.
- `src/get_basket.rs`: the basket that the stake pool asks for on creation.
- `app/`: the RPC client and the instruction handlers around the library; they
  need the registry's and the stake pool's own crates.
- `tests/`: tests of the library on concrete values.
