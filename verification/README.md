# resonate

Durable promises, tasks and schedules: the rules of a worker's SDK and of the server
that it can embed, as a library whose contracts Verus proves.

- `src/ids.rs`, `src/types.rs`, `src/durable.rs`, `src/futures.rs`: the SDK. How ids are
  formed and checked, what values and records hold, how a durable function is driven to
  its outcome, and what awaiting a handle does.
- `src/sqlite/`: the embedded server. A request is worked through in steps: a `Pending`
  request names the one call that it waits for and goes on with the answer to it, until
  it is answered. `network.rs` holds the connections and routes messages to them;
  `laws.rs` states what holds of every request, whatever the storage answers.
- `src/json.rs`, `src/string_map.rs`, `src/text.rs`: JSON values, string maps and texts.
- `app/`: what is not verified. It performs the calls (the database, cron expressions,
  decoding), runs the background loops on tokio, and gives the types their wire format.

Calls into other crates stand behind a few trusted items. Parsing a URL (`url`) and
writing a map as JSON (`serde_json`) have a declared contract; of the message of a
database error (`libsql`) nothing is declared but that it is passed on as it came.
