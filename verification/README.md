# tui_client

A terminal client for a restaurant-listing API: sign-in, sign-up and password
reset; a dashboard of restaurants with search; admin editing, toggling,
approval and deletion; a customer's own entries; a consumer's favorites; and a
form for entries with their menus.

The application is written as a verified state machine.

- `src/` is the library, verified with Verus. `handle_event` takes a key and
  returns a `Command`: nothing, quit, or an `ApiCall` to make. `App::request`
  turns a call into an `HttpRequest` (method, URL, `Authorization` header,
  body), and `on_reply` takes the reply and returns the next command. Each of
  these has a contract over the spec model (`AppView`, `event_keys`,
  `replied`, `request_matches`); `src/laws.rs` proves properties of the
  whole: selections stay inside their lists, every operation ends, Tab cycles
  the form, sign-out forgets the session, and more.
- `app/` is the program around it: the terminal loop (crossterm), drawing
  (ratatui), and the HTTP transport (reqwest, serde, tokio), which performs
  each call and hands the reply back.
- `tests/` runs the library on concrete scenarios.
