# ff_standard_lib

The standard library of the Fund Forge trading engine, verified with Verus.

- `src/` — the library. Every function carries a `requires`/`ensures` contract that
  Verus proves: decimal arithmetic over `rust_decimal`, rolling history windows, candle,
  quote-bar, Heikin-Ashi and tick-count consolidators, simulated order books and fill
  prices, the store of simulated markets keyed by symbol, the backtest matching engine
  and simulated order requests, true ranges for the average true range, the live
  subscribe/unsubscribe decisions, futures product tables, contract rollover and Oanda margin tiers, the test
  brokerage's answers, request/response messages and their length-prefixed framing,
  market-hours resolution across daylight-saving changes, and time and text helpers.
  Calls into `rust_decimal`, `chrono`, `chrono-tz` and `heck` sit behind small
  `#[verifier::external_body]` functions whose contracts are stated over named results.
- `tests/` — ordinary Rust tests run against the compiled library.
- `app/` — the parts that touch the outside world: `chrono` date-time values, file
  access, floating-point helpers and chart display settings, printable error types, and
  the feeding of market messages (which refuses trade prices as the market does).
