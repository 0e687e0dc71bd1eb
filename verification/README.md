# zhuque

A Gemini capsule server. The library under `src/` holds the request handling,
reply framing, path confinement and settings resolution, verified with Verus;
`app/` is the TLS server around it (tokio, rustls, clap, toml, tracing).

- `src/reply.rs`: status codes and reply headers (`<code>[ <message>]\r\n`).
- `src/request.rs`: reading a request (size limit, UTF-8, CRLF, `..` check, scheme).
- `src/path.rs`: Unix path components, prefix test and extensions.
- `src/serve.rs`: which file a request names, confinement to the capsule root, MIME type.
- `src/session.rs`: answering one connection as a state machine whose actions `app/` performs.
- `src/cli.rs`: command-line and configuration-file settings with their defaults.
- `src/laws.rs`: properties that hold of every request and reply.
- `src/trusted.rs`: the calls into `url`, `percent-encoding` and std whose contracts are trusted.
