# mcp_pos

A point-of-sale engine whose logic is proved with Verus: catalog and carts,
payments and shifts, split tenders, foreign currency, vouchers and EBT/SNAP,
tips and loyalty, role-gated controls, parked carts, a hash-chained record of
signed receipts, payment QR payloads, e-invoices for 22 tax standards, US
sales tax, levies, age checks and thermal receipts in 24 languages.

Amounts are fixed point: minor units (cents) for money, thousandths of a unit
for quantities, thousandths of a percent for rates, millionths for exchange
rates.  What a sale keeps unrounded (a line's price times quantity, line
discounts, a cart's subtotal and discount) is held in thousandths of a minor
unit, and a cart's total is rounded once.  Rounding is half away from zero,
except where a figure is printed as a whole number, which rounds halves to
even as decimal formatting does.

A paid sale earns its customer one loyalty point for each full 100 currency
units; a point redeems for one currency unit.  Signed receipts form a
SHA-256 hash chain.

Layout:

- `src/` the verified library.  `server.rs` holds the service and its
  errors; each request is a method of `PosServer` in `sales.rs`,
  `payments.rs`, `tenders.rs`, `accounts.rs`, `controls.rs`, `fiscal.rs`,
  `receipts.rs` and `documents.rs`.  `cart.rs` holds the arithmetic of cart
  lines and totals, `table.rs` an insertion-ordered map, `text.rs` number
  formatting, `clock.rs` time, identifiers and dates.  `laws.rs` states and
  proves the properties that span requests.
- `tests/` tests of the library on concrete values.
- `app/` the MCP server over stdio: it decodes each tool's JSON request,
  converts decimal amounts to fixed point, calls the library and encodes the
  answer.  It runs on `tokio`, the async runtime that `rmcp`'s server needs.
