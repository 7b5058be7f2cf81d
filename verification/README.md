# Bakoel super admin

The server behind the super admin of Bakoel: login, the balances of all tenants, the queue of
withdrawals and its approval, the profile of a tenant and the numbers of a tenant's papers.

- `src/` is the library. It decides who is let in, what is asked of the database, and what is
  replied. It is written in Verus, and its contracts are proved. The laws that span several
  functions stand in `src/laws.rs`. Amounts of money pass through it as the text that the
  database gave.
- `app/` is the server around it: routes, the connection to the database, permits, and the
  rendering of replies as JSON. Amounts are read there as floating-point numbers, and the
  difference of two totals that a balance shows is computed there; neither is verified.
- `tests/` runs the library on concrete requests.

The environment sets `DATABASE_URL`, `JWT_SECRET` (default `secret_default`) and `PORT` (default
`8000`).
