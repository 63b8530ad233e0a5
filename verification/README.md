# agentgen

Client for the AgentGen API (HTML → PDF and HTML → image), with its core
verified in Verus.

- `src/` — the verified library:
  - `types` — request and response types; the PDF page builders.
  - `client` — the client's key and base URL (trailing slashes removed) and
    the HTTP request (method, URL, headers, body) of every API operation.
  - `body` — the JSON body of a PDF request, framed from the JSON of its pages
    and the optional `optimize` flag.
  - `error` — the client's error type and how a refused request's reply
    (status and JSON body) becomes an error.
  - `cli` — option parsing and page building for the command-line tool.
  - `text` — string helpers and the std text functions the library calls.
- `app/` — the `agentgen` command-line tool and the async HTTP client that
  sends the planned requests with `reqwest`; serde and thiserror forms of the
  library's types.
- `tests/` — tests of the library.
