# twitch_bot

The decision logic of a Twitch chat bot, written in Verus and proved
against its contracts: chat command parsing and replies, shoutout and
`!world` cooldowns, the shoutout queue, ad schedules, channel-point
redemptions, the IRC and EventSub connection state machines with their
backoff rules, and the messages sent for EventSub notifications.

## Layout

- `src/` — the verified library.
  - `text.rs`: characters, words, trimming, joining, UTF-8 lengths and
    number parsing, each with a specification.
  - `keyed.rs`: an insertion-ordered map with distinct keys.
  - `clock.rs`: clocks, and the proleptic Gregorian calendar that chrono
    counts days in.
  - `irc/`: the command registry, the commands, and the chat connection.
  - `eventsub/`: the EventSub session and the notification handlers.
  - `api/`, `manager.rs`, `handler.rs`, `roles.rs`,
    `connection_monitor.rs`: tokens and API answers, the user cache, the
    message routing, roles, and uptime bookkeeping.
- `tests/` — tests of the library on concrete values.
- `app/` — what stays outside the proofs: JSON conversion with serde,
  serde copies of the library's types, and the floating-point evaluation
  of `!calc`.

Calls into chrono, rand and std that the library needs are made through a
few small trusted functions, each documented with what it assumes of the
outside code.
