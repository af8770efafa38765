# vaultsync

Live-sync notifications, rate limits and leader election for a password vault
server that runs as several replicas. The library is written in Verus: contracts
state what its functions do, and Verus proves them. What depends on the clock, on
chance or on what another crate computes is stated for every outcome, or by a name for
the outcome.

## Layout

- `src/` is the verified library.
  - `text`, `value`, `datetime`, `frame`, `message`: texts, MessagePack and JSON
    values, dates, and the frames that clients are sent.
  - `models`, `notification`: what clients are told about.
  - `connections`, `backends`, `memory_backend`: who is connected to this replica.
  - `backend`, `redis_backend`, `redis_command`, `listener`: how a notification
    reaches the clients of every replica.
  - `users`, `hub`: the interface to the rest of the server, and the life of a
    connection.
  - `redis_conn`, `ratelimit`, `token_bucket`, `job_lock`: the shared Redis client,
    the limits on logins, and the lease of the job scheduler. `token_bucket` is the
    rule of the shared limit in whole numbers; the script that Redis runs for it is in
    `app/`, and no proof speaks of it.
- `app/` is the server around it: routes, channels, Redis, the database.
- `tests/` runs the library on concrete values.

## How it works

A function of the library that would have an effect on the world returns a plan
instead: which bytes go to which client, and which commands go to Redis. `app/`
carries the plan out and hands back what came of it. Clients are known to the
library by the number of the channel that leads to them.

Proof functions whose names start with `law_` state what holds of the library as a
whole, for instance that every replica tells each of its clients once of a
notification, or that no two replicas hold the scheduler's lease at a time.

Calls into other crates stand behind small functions whose contracts are believed,
not proved. Their doc comments say which function they call and what they claim of
it.
