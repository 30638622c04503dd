# plugind

A plugin host: a daemon that loads plugin libraries from object storage
and runs them over HTTP, a mesh variant of it, and a command line client.

- `src/` is the verified library (Verus): HTTP framing of JSON replies and
  reading of raw HTTP responses, the cache of loaded libraries, the upload
  form and upload decision (with bearer token checks), invocation planning,
  the RPC replies, the plugin context and the example plugin.
- The cache of loaded libraries is a vector of named entries with no
  name twice, viewed as a map from names to libraries: vstd gives
  `HashMap` contracts only for key types known to obey its key model,
  and `String` is not one of them.
- `app/` holds the programs around it: the axum servers, object storage,
  dynamic loading of libraries, and the client. Run it with `plugind`,
  `plugin-mesh`, or client arguments.
- `tests/` exercises the library.
