# sorosusu

The rules of the SoroSusu savings-circle protocol, written in Verus and
proved against their contracts.

- `src/` is the verified library. Each function is a transition: it takes
  what the contract loaded from ledger storage (and the ledger time, and the
  answers of other contracts), decides, and returns what to store, pay and
  report. Members and contracts appear as `Account`, the 32-byte key an
  address wraps.
  - `circle`: creating and joining circles, deposits and their fee discount,
    contribution settlement with the buddy fallback, closing a round, claiming
    the pot, collateral, basket circles, anchor deposits.
  - `payouts`: batch payouts to several winners, tranche schedules, frozen
    payouts, swaps.
  - `reputation`: the Reliability Index and the reputation metrics (on-time
    rate, volume bonus, social capital, inactivity decay, fee discount,
    access to features by score).
  - `governance`, `leniency`, `appeals`: proposals and quadratic votes,
    leniency requests, defaults, appeals and amnesty.
  - `early_bird_bonus`, `reliability_oracle`, `social_vouching`: the three
    stand-alone modules.
  - `grants`, `impact`: grant settlement, vote snapshots, and impact
    certificates with their badges, tiers and progress bars.
  - `audit`, `error`, `rejection`: audit queries, error codes, abort
    messages.
  Laws that span several functions are proof functions named `lemma_*`.
- `app/` is the Soroban contract around the library: storage keys and
  ledger forms of the records, authorisation, token transfers, events and
  calls to the proof-of-personhood oracle.
- `tests/` runs the library on concrete values.
