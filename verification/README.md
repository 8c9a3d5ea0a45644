# eden

The scheduling, settings and payment-record logic of the Eden Discord bot,
verified with Verus.

- `src/` is the verified library:
  - `settings/`: sharding rules, logging, database limits, the bot's HTTP
    client, where the settings file is looked for and which environment
    variables feed the settings;
  - `schema/`: Philippine phone numbers and Mynt reference numbers, guild
    settings, payment data, record forms, the identities a new payer gets,
    and the SQL of the bill, identity and payment listings;
  - `tasks_schema/`: stored tasks, worker ids and the SQL of the task
    queue's listings and pulls;
  - `tasks/`: triggers, the registry of task types and recurring tasks,
    the order of due tasks, what happens after a run, retries and backoff,
    and the decisions of the worker's loop and of its permits.
- `app/` is the ordinary Rust around it: serde forms of the settings and
  records, the database queries, and the asynchronous queue worker.
- `tests/` runs the library on concrete values.

Points in time are microseconds since the Unix epoch and spans of time are
milliseconds; `chrono` and `cron_clock` compute on them behind trusted
functions whose contracts say what their sources show.
