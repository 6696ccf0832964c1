# copilot_sdk

A client library for the GitHub Copilot CLI agent runtime, with its logic verified by Verus.

- `src/` is the verified library: the JSON value model, the client's options, builder,
  connection state machine and CLI launch plan, the parsing of CLI URLs and port
  announcements, tool results and their wire form, session and message configuration,
  a session's tools, commands, hooks and capabilities, the dispatch of session filesystem
  requests, the replies to the tool, permission, command, hook, system-message and
  filesystem requests the client routes, and the answers to user-input, elicitation,
  exit-plan-mode and auto-mode-switch requests with or without a registered handler.
  The typed session events and typed hook payloads are not modelled; events and hook
  inputs and outputs are carried as JSON values.
- `src/jsonrpc.rs` holds the JSON-RPC 2.0 framing (`Content-Length` headers) and the
  shapes of the messages sent and received.
- `app/` is the asynchronous runtime around it: spawning the CLI process (a process group
  on Unix, a job object on Windows), the JSON-RPC connection over the CLI's pipes or a TCP
  socket, and the conversion to and from `serde_json` values.
- `tests/` exercises the library on concrete values.
