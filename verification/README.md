# codex_runtime

The decisions of a coding agent's local runtime, as a verified library:

- `listen` wakes a thread for the events of an append-only inbox and at a cadence, with a durable
  state that is saved before every request.
- `bridge` takes the signals of a workspace from a child process, frame by frame.
- `poke` lets typed signals through under a policy of the receiver, with a quota and without repeats.
- `responses` holds the routes of the inference backend, the lineage of incremental requests, the
  circuit breaker of the websocket and the published state of the transport.
- `context` describes and answers the tools on the agent's own context, and the messages that go
  with them.
- `image` names generated images and embeds their provenance.
- `usage` publishes the usage of the account without what identifies it.
- `control_socket` decides where the control socket may stand and which file may give way to it.

The modules `atom`, `attention`, `json`, `snapshot`, `text` and `time` are shared by these.

Every function in `src/` states in its contract what it returns or changes. Proof functions named
`law_…` state what holds of several functions together. Calls into other crates stand behind small
functions whose contracts are trusted; their doc comments name the function that is called and say
what is claimed of it.

`app/` carries the decisions out: files, locks, sockets, child processes, clocks and services.
