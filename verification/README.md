# solidmcp

A Model Context Protocol (MCP) server core, verified with Verus.

- `src/` is the verified library: JSON documents and text utilities, the JSON-RPC
  error model, the per-session protocol handler with version negotiation, the routing
  engine that keeps sessions apart and hands calls to a user handler, the HTTP
  transport's decisions (session cookies, request checks, reply framing), log-line
  formatting, content types, health reports, resource limits, and the order in which a
  framework server asks its resource and prompt providers (the first that succeeds
  answers: `lemma_lookup_finds_first_success`). Every public
  function states what it returns in its contract; the laws of the protocol (session
  isolation, re-initialization, the initialization gate, id echo, cookie round trips)
  are proof functions next to the code they are about. Over HTTP, an `initialize` is
  handled in a freshly generated session whose cookie the reply sets, and a later
  request with that cookie is handled in the same session (`lemma_post_session_persists`);
  errors of handlers and of malformed messages come back as JSON-RPC error responses.
- `app/` is the program around it: the warp HTTP server, tracing, the asynchronous
  handler trait and the loop that runs the engine's handler calls, the builder API,
  and serde-based message parsing.
- `tests/` exercise the library on concrete messages.
