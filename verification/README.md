# anchor_programs

Verified decision logic of a set of Solana (Anchor) programs:

- `amm`: constant-product pool deposits and withdrawals (slippage checks,
  lock, LP mint/burn, vault transfers signed by the pool config);
- `escrow`: the maker's refund (vault emptied back to the maker, then closed);
- `voting`: DAO, proposal and vote records;
- `vault`: the vault state account;
- `chain_post`: posts minted as compressed NFTs, tips, comments, NFT sales;
- `marketplace`: marketplace creation, delisting, purchases and fees;
- `staking`: NFT staking and unstaking with points per day.

`src/` holds the library, verified with Verus: each instruction is a
function from the plain values read from its accounts to the new account
state and the cross-program instructions to issue (`cpi`), with signer
seeds spelled out byte by byte (`accounts`).

`app/` holds the Anchor account contexts and instruction handlers: it
reads the accounts, calls the library, and performs the cross-program
invocations, the clock reads, the constant-product curve quotes and the
floating-point square root of quadratic voting.
