# agent_os_kernel

The kernel of an agent operating system, written in Verus: the records the
kernel keeps (goals, tasks, agent threads, artifacts, evidence, approvals,
messages, tool calls, context, memory, mementos, leases, sessions), the
syscall path that admits, authorizes and runs an agent's request, and the
rules each operation follows. The public operations state in their
contracts what they return and how they change the kernel state, and Verus
proves the code against those contracts.

## Layout

- `src/state.rs` — `KernelState`, its records and its well-formedness
  (every kind of record is kept once under its id).
- `src/syscall.rs`, `src/approval.rs`, `src/capability.rs` — the syscall
  envelope, admission (ABI version, identity, idempotency key), capability
  and approval checks.
- `src/dispatch.rs` — `handle_syscall`: admission, authorization, the named
  operation, and the answer kept under the idempotency key.
- `src/events.rs` — the typed kernel events. The operations on goals, tasks,
  agent threads with their invocation edges and communication profiles,
  permission requests, reviews, artifacts, evidence, approvals, context snapshots, compactions and final
  submissions each append their event to the state's log; `apply_event`
  projects one event onto the state, `replay_events` folds a log, and
  `law_state_is_replay_of_log` proves that every well-formed state's
  projected records are what replaying its own log gives back.
- `src/bundle.rs` — the projection of a task bundle: the records a
  selection of ids names, each kind in id order.
- `src/goals.rs`, `src/tasks.rs`, `src/threads.rs`, `src/agents.rs`,
  `src/scheduler.rs`, `src/lifecycle.rs` — goals, the task tree, agent
  threads and turns, spawning and the lifecycle graph.
- `src/communication.rs`, `src/blackboard.rs`, `src/permission_requests.rs`,
  `src/review.rs`, `src/artifacts.rs` — messages, blackboard posts,
  permission requests, reviews, artifacts, evidence and final submissions.
- `src/tools.rs`, `src/tool_catalog.rs`, `src/tool_output.rs` — tool
  descriptors, the core tool catalog with its model metadata, and tool calls.
- `src/context.rs`, `src/memento.rs`, `src/resources.rs`, `src/sessions.rs`,
  `src/process.rs`, `src/provider.rs`, `src/automation.rs`, `src/packages.rs`,
  `src/ecosystem.rs`, `src/recovery.rs`, `src/runtime_jobs.rs` (runtime
  jobs and the log of what happened to each),
  `src/seeds.rs`, `src/export.rs`, `src/host.rs` — the remaining services.
- `src/clock.rs` — RFC 3339 parsing and formatting through the `time` crate;
  `src/ecosystem.rs` hashes with `sha2`.
- `app/` — a JSON-lines host that reads syscalls on standard input, hands
  them to the kernel and writes the answers.
- `tests/` — tests that run the library on concrete values.
