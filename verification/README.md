# finam_bot

The decision logic of a small trading system around the Finam Trade API and two
Telegram bots, verified with Verus.

- `src/` — the verified library:
  - `command` — the chat command grammar (`Command::parse`) and the help text;
  - `trade_chat`, `control_chat` — what the trading and the control bot answer
    to a message and how it changes the chat's trading configuration;
  - `trade_engine` — the trading configuration, its `{:#?}` text, the engine;
  - `renewal`, `subscription` — the token-renewal and bars-subscription loops
    as state machines (event in, next state and action out);
  - `auth` — the requests and the authorization header of the broker API;
  - `app_error`, `broker`, `text` — the error type, order sides, text helpers.
- `tests/` — tests of the library on concrete values.
- `app/` — the services: gRPC clients, the Telegram dispatchers, the loops
  that perform the library's actions, logging and process setup.
