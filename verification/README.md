# clemens

Follows the Solana chain, works out what each transaction did to the account that paid
for it, and stores the transactions in which tokens changed hands.

The library under `src/` is verified with Verus:

- `transaction`: confirmed transactions as an RPC node reports them
- `keys`: account addresses and signatures, and their base-58 text
- `helpers`: the hash, the accounts and the fee payer of an encoded transaction
- `decimal`: whole numbers in decimal notation
- `pairs`, `balances`, `tokens`: what an account holds of each token, and what changed
- `analysis`: the analysis of a transaction
- `pipeline`: the trades of a block, and the batches that are stored
- `rows`: the rows that the database keeps
- `fetch`: when a block that could not be fetched is fetched again

Base 58 and the transaction format come from `solana-sdk` and
`solana-transaction-status`; the functions that call them state what is relied on.

The program under `app/` talks to the RPC node and to the database. It reads `WS_URL`,
`RPC_URL` and `DATABASE_URL` from its environment.
