# zero2prod2

A newsletter subscription service. The library under `src/` holds the parts
that decide something, each with a contract proved by Verus:

- `domain`: subscriber-name validation (`SubscriberName::parse`) and the
  validation of a submitted subscription (`Subscriber::try_from`);
- `config`: the settings and the Postgres connection strings built from them;
- `routes`: which status the subscription endpoint answers with;
- `services`: the tracing layer and what is logged when a request completes;
- `tracing`: the span table and the lines of the timing log;
- `text`: decimal rendering of integers.

`app/` is the server around it: reading the settings file, the axum routes,
the tower middleware, the `tracing_subscriber` layer and `main`.
