# cryptotrader

The decision and request-building logic of a small Coinbase trading bot,
verified with Verus.

`src/` is the library:

- `text`: digits and decimal text of integers, comma-separated lists.
- `signing`: the HMAC-SHA256 access signature, the authentication headers and
  the signed requests sent to the API.
- `trade`: account data, the buying rules (which currency to buy and when a
  round ends, given the price comparisons), buy orders and the period over
  which recent prices are compared.
- `api`: the followed currencies and the price requests made for them.
- `database`: the SQL statements that store and query the observed prices and purchases.

`app/` is the program around it: it reads the settings, talks to the API with
reqwest, runs the statements on an SQLite file with rusqlite, does the
floating-point price and balance arithmetic, and loops.
