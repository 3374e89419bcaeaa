# annex

Back-office service for Annex users: customers, estimates, invoices,
products, settings and media storage, served over HTTP from MongoDB.

- `src/` is the request logic, verified with Verus: reading the bearer
  token, the sign-in decision, the filters and aggregation pipelines that
  each endpoint sends to MongoDB (modelled as BSON documents), the
  financial-year numbering of estimates and invoices, and the answers built
  from what the database returns.
- `tests/` runs that logic on concrete requests.
- `app/` is the HTTP server: routes, JSON bodies, token decoding, database
  calls and files, handing plain values to the library and back.
