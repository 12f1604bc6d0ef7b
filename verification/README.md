# gyg_template

The verified core of a small event-sourced microservice template.

- `src/` is the library, verified with Verus: commands, events and errors
  (`command`, `event`, `error`), the write model that decides commands
  (`state`), the read model of the last ten events (`dto`), decimal text
  (`decimal`), the text formats of delayed additions (`delay`), what the live
  event stream sends to a page (`stream`), what the web
  front reads from requests (`web`), and the client's form and page logic
  (`input`, `template`).
- `app/` is the service around it: the web server, the consumers that keep
  the caches and complete delayed additions, and the serde copies of the
  library's types.
- `tests/` runs the library on concrete values.
