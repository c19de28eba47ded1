# prompt_repository

One interface to the prompt repositories LangSmith, Haystack PromptHub, PromptHub and OpenLIT.

- `src/` is the library, verified with Verus. It builds the requests, judges the status of the
  answers, and turns decoded payloads into prompt templates. `src/laws.rs` states what holds of
  the repositories as a whole.
- `app/` sends the requests with `reqwest` and decodes the answers with `serde`.
- `tests/` runs the library on concrete exchanges.

What the library takes on trust of `serde_json` and `reqwest` stands in `src/json.rs` and
`src/http.rs`, each item with what it claims.
