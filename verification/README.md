# sutra_erp

The domain core of an ERP for Indian educational institutions, written in
Verus: every rule carries a contract that the verifier proves.

- `src/money.rs`: amounts in paise, their arithmetic, the Indian-grouped
  rupee display and the parsing of decimal rupee texts.
- `src/decimal.rs`: decimals as mantissa and scale, and their order.
- `src/identity.rs`: tenant ids, typed entity ids, audit data, tenant
  headers.
- `src/journal.rs`: journal lines and the totals by which they balance.
- `src/outbox.rs`: the transactional outbox and its retry budget.
- `src/auth.rs`: argon2id password hashing, token claims, bearer tokens,
  login and registration decisions.
- `src/payables/`: vendors, purchase orders, goods receipts, invoice
  matching and posting, vendor payments and TDS.
- `src/receivables/`: fee assessment, FIFO allocation of fee payments,
  concessions, scholarships, refunds and their journals.
- `app/`: the HTTP service around the library: routes, middleware, JWT
  signing, database access and the floating-point amounts.
- `tests/`: tests of the library on concrete values.
