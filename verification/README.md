# wickle

Data contracts of the Wickle agent engine and the decisions of its agent driver,
written in Verus with their behaviour stated as contracts and proved.

## Layout

- `src/error.rs`: error categories, their stored and diagnostic names, `ContractError`.
- `src/values.rs`: identifiers, canonical JSON digests (`sorted-json-v1:sha256:` and
  lower-case hexadecimal SHA-256), record, version and scope references.
- `src/run.rs`: requests, waits, resume commands, statuses and outcomes, with the
  outcome evidence check.
- `src/profile.rs`, `src/message.rs`, `src/model.rs`: profile limits and completion
  policy, transcript messages and tool calls/results, model attempt records.
- `src/snapshot.rs`: the run checkpoint, its static validation (`RunSnapshot::validate`)
  and the consistency laws of accepted checkpoints; durable and ephemeral events.
- `src/agent/segment.rs`: the serial model/tool loop of an execution segment as a step
  function: planned calls run one at a time in plan order, their observations go back to
  the model, approvals and uncertain effects end the segment in a wait.
- `src/agent/driver.rs`: what the finishing and waiting transactions commit, the assistant
  message, step preparation and the route request, lease and heartbeat timing, partial
  output recovery, and replay of provider continuation records.
- `src/agent/hooks.rs`: lifecycle hook decisions.
- `src/anthropic.rs`: error locations of the Anthropic adapter.
- `app/`: JSON wire formats and strict decoding (`from_json`), canonical JSON of logical
  start input, and the asynchronous driver that performs storage, clock, model, tool and
  context-assembly calls between the library's decisions.

SHA-256 comes from the `sha2` crate behind one trusted wrapper (`values::sha256`), whose
result is the named value `sha256_of` of its input.
