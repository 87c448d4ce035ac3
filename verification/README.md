# hft_engine

A statistical-arbitrage paper-trading engine for pairs of crypto or stock
symbols, with its decision logic verified by Verus.

- `src/` — the verified library:
  - `market` — ticks, order books, orders, commands (prices generic over `P`).
  - `window` — rolling price windows and their laws.
  - `strategy` — the pair strategy: recording ticks, and the position and
    orders it takes for each band of the spread's z-score.
  - `engine` — the engine as a state machine from commands, timer ticks,
    polled quotes and orders to actions (feeds, polling, order placement).
  - `venues` — endpoint addresses and Binance's HMAC-SHA256 signed order query.
  - `display` — the dashboard's bounded lists and pair selector values.
  - `text`, `clock` — text helpers and the wall clock.
- `app/` — the runtime: the Dioxus dashboard, the Tokio engine loop, the
  HTTP and WebSocket clients, and the floating-point statistics of the spread.
- `tests/` — tests of the library.
