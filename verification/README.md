# motosan-agent-primitives

Core types and abstract traits for the **Motosan agent framework**, written in
Verus: the data that the agent loop, provider adapters, tools, hooks and
permission policies exchange, and the JSON that it travels as.

| Module       | Purpose                                                              |
|--------------|----------------------------------------------------------------------|
| `message`    | `Message`, `MessageId`, `Role`: what an LLM sees                      |
| `content`    | `ContentBlock` and its sources                                       |
| `tool`       | `ToolCall`, `ToolResult`, `ToolAnnotations`                          |
| `permission` | `Permission`, `PermissionPolicy`, `PermissionMode`, composition rule |
| `approval`   | `ReviewDecision`, `ApprovalRequest`                                  |
| `hook`       | `Hook`, `HookResult`, lifecycle contexts                             |
| `event`      | `AgentEvent`: what the agent emits during a run                      |
| `memory`     | `MemorySchema`: what long-term context a harness expects             |
| `wire`       | The wire format: `Wire`, and how fields and tags are read            |
| `stamp`      | `StampedWire`: the same for values with message ids and times        |
| `json`       | A model of JSON documents, and the calls into `serde_json`           |
| `clock`      | `Timestamp`, and the calls into `chrono`                             |

`src/` is verified. Every type that travels states which JSON document a value
is written as and what is read from any document, and it is proved that a
written value is read back as it was, with one exception: a hook's rewrite to
`null` is read as no rewrite. For a document that travels as text the same is
proved where its numbers are integers and it nests no more than 127 arrays and
objects.

What is believed of std, `serde_json`, `chrono`, `uuid` and `tokio-util` stands
in the contracts of a few small functions in `json`, `clock`, `message`, `hook`
and `wire`, each with a comment that names the outside function.

`app/` adapts the library to outside traits: serde (by copies of the types that
carry its derives), `Display`, `Error`, async middleware, and the types of `uuid`
and `chrono`. `tests/` runs the library with the real crates.
