# temporal

A Rust SDK for Temporal workflow orchestration whose decisions are proved
with Verus.

- `src/` is the verified library:
  - `workflow_machine` — the state machine of a workflow run: pending timers
    and activities, cancellation, completion, and the commands of each
    activation, with its step functions stated as spec functions and laws
    (`lemma_*`) proved over them;
  - `workflow`, `activity`, `error` — workflow and activity information,
    errors and their texts, activity outcomes, sequence counters;
  - `worker`, `registry` — the worker builder, registered activities, the
    cache of workflow machines;
  - `macro_plan` — what the `#[activity]` and `#[workflow]` macros generate
    for a signature;
  - `config`, `client`, `containers`, `fixtures`, `text` — worker and client
    options, server addresses, test containers and names;
  - `outside` — the calls into `url`, `serde_json`, `fastrand`, `tokio-util`
    and std that the library trusts.
- `app/` is the runtime around it: connections to the server, the worker
  loop, the workflow context and its channels, polling workflow futures,
  token generation for the macros, and starting containers.
- `tests/` exercises the library on concrete values.
