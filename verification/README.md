# service

A newsletter subscription service. `src/` is the verified core (Verus):

- `adapter::configuration` — database settings from environment values, and the connection URL.
- `adapter::models`, `adapter::repository` — stored rows, the `SubscriptionRepository` interface,
  and the rules that turn a store's outcomes (rows, counts, connection or query failures) into answers.
- `adapter::retry` — the schedule for retrying to open the connection pool.
- `domain::errors` — `DomainError`, its text, HTTP status and JSON body.
- `port::models` — request and response models.
- `routes` — what each route answers: greeting, health, subscribe, list, unsubscribe. For the
  subscription routes the library decides which store call to make (`StoreCall`), makes it through
  `perform`, and answers from the store's reply (`subscribe`, `lookup`, `unsubscribe`), with the
  HTTP status of each answer.
- `ids`, `json`, `text` — UUID text (through `uuid`), JSON string literals (through `serde_json`),
  decimal text.

`app/` is the unverified shell: environment, PostgreSQL through diesel, axum routing,
serde copies of the models, tracing.
