# zellij_cmd_k

A command palette for the Zellij terminal multiplexer, as a verified
library plus a thin plugin around it.

- `src/` is the library, verified with Verus: which commands are offered
  for the current tabs and sessions (`commands`), how a search term ranks
  them (`ranking`, with fuzzy-matcher's skim scorer behind one trusted
  wrapper), how key presses move between the list, the key-binding
  reference and the session prompts (`input`), how host events update the
  state (`plugin`), and what is drawn (`render`). `laws` holds the
  properties that span several steps.
- `app/` is the Zellij plugin: it converts the host's events into the
  library's plain types, sends the host requests the library returns, and
  draws the elements it lays out.
- `tests/` exercises the library on concrete values.
