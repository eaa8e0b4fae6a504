# Order choreography

The decisions of an event-driven order system, written and proved in Verus:
transactional outboxes, idempotent inboxes, ordering by version, a saga
without a coordinator, compensation, and replay of dead letters.

```text
Client -> orders -> topics -> inventory, payments, fulfilment
             ^                              |
             +-------- outcome events ------+
```

Four services own a database each. A service decides inside one transaction:
what it changes, what it sends (its outbox) and which message it has taken (its
inbox) are committed together. Delivery is at least once; the effect on the
business is once.

## Layout

- `src/` is the library. Every function has a contract, and every item is
  verified.
  - `text`, `time`, `ids`, `digest`: texts, moments, identifiers, digests and
    JSON text, with the few calls into outside crates.
  - `contracts`: the messages.
  - `messaging`: the order within a batch, and the offset that may be
    committed.
  - `persistence`: the outbox and its publisher, the inbox, dead letters, and
    counters.
  - `consuming`: how any service takes a record; `ledger` keeps an inbox in
    memory.
  - `orders`, `inventory`, `payments`, `fulfilment`: what each service decides.
    `orders::laws` states what holds of every reaction of an order.
  - `retry`, `replay`, `test_support`: retry budgets, the replay tool, and the
    fault points and clock that tests set.
- `tests/` runs the library on concrete orders, stock and payments.
- `app/` is the program: HTTP, SQL, the broker, settings and logging.

## What is proved

- An order moves along its status graph only; it is cancelled once every
  compensation that it needs has been confirmed, the release of stock that it
  held always among them, and goes to review when one was given up.
- A request with a known key is answered from the order that the key created,
  or refused where it asks for something else.
- A message that was taken is a duplicate from then on; versions of one
  aggregate are applied in sequence; a record that cannot be applied is put
  aside with a dead letter and blocks nothing. For orders this rests on their
  knowing the reservation of the stock that they hold, which they never lose.
- A fulfilment is decided once, and every later report repeats the decision.
- Reservations take every line or none, conserve stock and are undone by a
  release, once.
- A payment is authorized and refunded at most once under its key, also where
  the provider's answer was lost.
- A claimed message belongs to one publisher until its lease ends, and comes
  back after a failure or a crash. This is proved of the rows as
  `persistence::outbox` claims them; the program claims its rows with the SQL
  in `app/store.rs`, which says the same and is not proved.
- Every command to a service bears the next number of that service's own
  sequence, and no number is used up without a command.
- Offsets are committed through a completed prefix only.

Identifiers and the clock come from outside. What a function does with them is
proved for every value; the functions that draw them say which values can come.

## Running

`orders`, `inventory`, `payments` and `fulfilment` start the services;
`replay-dlq <source-topic> <dlq-offset> [broker]` sends a dead letter back to
its topic, and `migrate-all` applies the migrations, which lie in
`migrations/<service>`.

Settings come from the environment: `POSTGRES_*`, `REDPANDA_BROKER`,
`DELIVERY_MODE` (`outbox` or `naive`), and a prefix for each service
(`ORDERS_PORT`, `PAYMENTS_PROVIDER_RETRY_MAX_ATTEMPTS`). Failure injection is
off by default, asks for a token, and is refused where `ENVIRONMENT` is
`production`.
