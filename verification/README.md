# orchestration

Multi-agent orchestration: an agent registry, an agent lifecycle state
machine, consensus over agent results, a bounded priority work queue, and the
decision logic of a status server and a guardian sensor/actuator.

- `src/` is the library, verified with Verus. Every public function that
  computes something carries a contract over mathematical models (the registry as a `Map` keyed by agent
  UUID, the queue as a `Seq` of items with priorities, agent results as
  character sequences), and the laws of the library are public proof
  functions beside the code they speak of.
- `app/` is the runtime around it: tokio tasks, timers and semaphores, context
  directories on disk, the axum status server, JSON forms of the library's
  types, and the floating-point parts (quorum fractions given as floats, the
  sensor's error-rate threshold).
- `tests/` exercises the library on concrete values.

The registry is a `dashmap::DashMap`; SHA-256 comes from `sha2`; UUIDs are
made and parsed by `uuid`. These calls stand behind small trusted wrappers
whose contracts state what the crates document.
