# updatenight-cli

Terminal client for the Update Night catalog of AI dev tools, agent
frameworks, MCP servers and AI news (`un`, `un login`, `un logout`).

- `src/` is the library, verified with Verus:
  - `catalog`: entries, news items, and the tables of kinds and categories;
  - `api`: the API host and the requests to the catalog API (search,
    listing by category, news, semantic search, device login);
  - `auth`: the device authorization flow as a step function from state
    and event to state and action, with its laws;
  - `app`: the state machine of the terminal interface (keys, replies,
    the search debounce) with its laws;
  - `view`: the text, the detail popup's lines and the popup rectangle
    that the screen shows;
  - `text`: string utilities with exact contracts.
- `app/` is the program: command line, configuration file, HTTP, the
  terminal loop and the drawing.
- `tests/` runs the library on concrete values.

Set `UPDATENIGHT_API_URL` to use another API host; the default is
`https://server.updatenight.com`.
