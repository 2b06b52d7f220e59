# lending_vesting

Verified core of two Solana programs written with Anchor:

- a lending pool that reads Pyth price accounts, lends against deposited
  collateral and lets liquidators repay unhealthy positions for a bonus;
- a token-vesting program that releases an employee's allocation linearly
  between a start and an end time, after a cliff.

`src/` holds the logic, verified with Verus: decoding price accounts
(`lending::price`), borrowing (`lending::borrow`), liquidation
(`lending::liquidate`), the account models (`lending::state`, `vesting`) and
the properties proved of them (`lending::laws`, `vesting::laws`). Each
instruction has a `try_` form that returns `None` exactly where the program
aborts on an arithmetic overflow, and a form that leaves those inputs out.

`app/` is the Anchor shell: account constraints, clock reads, token
transfers, and the floating-point interest accrual. It converts accounts to
the library's types, calls the library, and writes the results back.
