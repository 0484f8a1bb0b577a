# spotify_cli

A command-line client library for Spotify, with its logic verified by Verus.

- `src/` is the verified library: the models of Spotify's answers and of the
  app's own records (tokens, pins, configuration, metadata), the JSON-RPC
  routing and protocol, the OAuth/PKCE steps, the browser-login request
  parsing, URL and form building, text and JSON rendering, table layout,
  Levenshtein distance and the facts fuzzy scores are made of. Calls into
  outside crates (url, urlencoding, base64, sha2, rand, dirs, keyring) go
  through small trusted wrappers whose contracts state what those crates
  document.
- `app/` is the unverified rim: files, HTTP (reqwest), the callback server
  (tiny_http), the daemon's Unix socket (tokio), serde forms of the
  library's values, and the floating-point score weighing.
- `tests/` exercises the library through its public API.
