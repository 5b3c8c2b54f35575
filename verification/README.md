# reddit_offchain

The off-chain services of a Sovereign-rollup Reddit: a socket listener that
queues each rollup transaction once, a relay that publishes queued
transactions to Kafka by kind, a consumer that stores created users, and a
database service that stores and serves users, subreddits, posts, comments
and votes.

- `src/` is the verified library (Verus): request validation, error
  answers, cache keys, vote bookkeeping, event routing, JSON re-encoding,
  delivery retries and the database schema with its migrations. Every
  public function carries a contract; the `lemma_*` proof functions state
  the properties that span several calls.
- `tests/` runs the library on concrete values.
- `app/` holds the services themselves (HTTP, Postgres, Redis, RabbitMQ,
  Kafka), which call the library for every decision. Run one with
  `app <db-layer|comet|pulsar|aether-user>`; settings come from the
  environment (`POSTGRES_URL`, `REDIS_URL`, `AMQP_ADDR`, `KAFKA_BROKERS`,
  `ROLLUP_WS_URL`).
