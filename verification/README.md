# jb_http_cache

A caching proxy in front of Jackbox's servers, with its decisions verified by Verus.

A request goes to `jackbox.tv`, or, where its path begins with `/@`, to the Jackbox host that
follows. Bodies are stored on disk under the host and their entity tag, compressed with brotli where
their content type asks for it, and an index entry under the host and path of the resource says
which entity tag, content type and form that is. Links to Jackbox's hosts in text bodies are led
through the proxy.

- `src/` is the library. It does no I/O: `HttpCache::get_cached` begins a `Session`, whose `progress`
  says what is to be done next, and `Session::resume` takes what came of it. `laws.rs` states what
  holds of all sessions.
- `app/` does what a session asks for: it talks to the upstream, keeps the files, and replies.
- `tests/` runs the library on concrete requests.

| module | what it is about |
| --- | --- |
| `text`, `accept` | splitting text; reading `Accept-Encoding` |
| `http` | header maps and URIs, through the `http` types of axum |
| `fault` | what can go wrong, with status and message |
| `route` | where a request leads |
| `response` | what is kept of a response, and told of it |
| `rewrite` | links in bodies |
| `coding`, `part` | brotli; the names of part files |
| `session`, `cache` | a request, step by step |
| `laws` | what holds of all of it |
