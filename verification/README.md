# upplysning

A workflow engine for machine-learning pipelines. A workflow is a list of
steps (each with a task type, a configuration and the steps it depends on)
and a list of feedback loops that send an instance back to an earlier step.

The library (`src/`) is verified with Verus:

- `model` — workflows, steps, instances, step results, worker tasks;
- `storage` — the in-memory store of workflows and instances;
- `consensus` — the simple leader election (node 1 leads);
- `registry` — the scheduler's worker table, seen as a map from worker
  identifier to its entry, with heartbeat expiry;
- `scheduler` — scheduling initial steps, building tasks, feedback passes;
- `engine` — starting instances and evaluating feedback conditions;
- `worker` — recording that a step runs and how it ended;
- `laws` — properties that span several operations;
- `ids`, `clock` — identifiers (UUIDs as 128-bit values) and instants.

`app/` is the service around it: the HTTP API (axum), the asynchronous
storage trait, the background heartbeat loops (tokio), task execution, and
the comparison of metrics with floating-point thresholds.
