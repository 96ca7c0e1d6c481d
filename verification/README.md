# stellar-tui

A terminal client for Stellar's JSON-RPC interface, built around a verified core library.

- `src/` is the verified library:
  - `app::model`: forms with a character caret, the application state and its
    abstract value (`AppView`), paginated responses.
  - `app::methods`: the twelve RPC methods, their parameter builders and the form
    validation.
  - `app::features`: the state machine of the interface: keyboard and mouse input,
    focus, response paging, search and selection, the network editor, and the
    request lifecycle (`execute_request` and `tick`).
  - `ui`: what the screen shows, as plain values: pane layout, caret position, JSON
    syntax colors, pane and modal contents.
  - `pattern`: the search patterns of the response pane, a small regular
    expression language (`|`, `.`, `*`, `+`, `?`, `^`, `$`, `\d`, `\w`, `\s`).
  - `settings`, `rpc`, `text`: network settings, JSON-RPC envelopes, and the text
    operations the rest is built on.
- `app/` is the terminal front end: it draws with ratatui, reads crossterm events,
  sends requests with reqwest, keeps the settings file and the clipboard, and hands
  the library plain values.
- `tests/` exercises the library through its public interface.
