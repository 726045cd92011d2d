# codex_processor

Decisions behind the `codex/*` requests of the app server, proved with Verus.

| request            | module               | laws                |
|--------------------|----------------------|---------------------|
| `codex/applyPatch` | `src/apply_patch.rs` | `src/patch_laws.rs` |
| `codex/getHistory` | `src/history.rs`     | `src/history.rs`    |
| `codex/spawnAgent` | `src/spawn_agent.rs` | `src/spawn_laws.rs` |

A request is a conversation. Opening it gives a state and the first action; the
server performs the action and reports an event; `step` takes the state and the
event to the next state and action, until the action is to answer the request.
What the contracts say of a step they say of the models (`...View`) of states,
events and actions; the laws speak of whole runs, with any events in any order.
What the server only wants back is carried along unread, as a type parameter: a
turn's payload, the rest of a configuration, environments, a trace, a filesystem.

`src/clock.rs`, `src/stamp.rs` and `src/output.rs` hold what is taken on trust:
the system clock, random UUIDs and their text, and the reading and trimming of
an error stream. `app/` runs the loops and holds the JSON forms; the server
implements `Host`.
