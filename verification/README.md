# campaign-views

Read-only views of a milestone-based fundraising campaign on Stellar: the
milestones with their computed fields, summaries of the milestones and of the
campaign, the balances per accepted asset, and whether a milestone can be
released.

- `src/` is the library, verified with Verus.
  - `types` holds the stored records, `storage` what is stored of one campaign.
  - `amounts` is the arithmetic: saturating sums, shortfalls, progress in basis
    points.
  - `milestones` says what the milestones add up to and which one is next.
  - `views` gives the views.
  - `host` declares the `soroban_sdk` types and calls that the views rest on.
  - `laws` proves what holds of the views together.
- `tests/` runs the library on concrete values, with the Soroban test host.
- `app/` reads the records from the ledger and hands the views out as contract
  values.
