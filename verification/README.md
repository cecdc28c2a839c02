# DeepOmni

A runtime for coding agents: threads of conversation, turns that ask a model and run its
tool calls, approvals, sub-agents, hooks, plugins, and a journal from which everything that
happened can be told again.

* `src/` is the library. It makes every decision: what goes into a prompt, which tool call
  may run, what is written to the journal, which event a host sees, how a turn ends. Its
  functions state what they return or change, and Verus proves it. Where one calls a service
  that the host supplies, it states which call is made, with what, and what becomes of the
  answer. What relates several functions stands beside them as proof functions whose names
  begin with `law_`.
* `app/` is ordinary Rust around it: files, processes, HTTP, tasks and channels. It carries
  out the steps that the library asks for and hands back what came of them.
* `tests/` runs the library on concrete values.

A turn is a state machine (`agent::turn::TurnRun`). It hands out steps (ask the model, take
the next piece of its response, decide on a tool call, run tool calls) together with the
effects of each (journal entries, transcript items, traces), and takes in the outcomes. The
jobs of the runtime (`runtime::submit::TurnJob`, `runtime::approve::ApprovalJob`) work in the
same way around it.

Texts and JSON values are compared by what they hold: each type has a view over plain
sequences of characters, and the contracts speak of these views. Where the library relies on
`serde_json`, `sha2`, `uuid` or std, the functions that make the calls are marked
`external_body`; they stand in `json.rs`, `digest.rs` and `text.rs`, and say what is taken for
granted.
