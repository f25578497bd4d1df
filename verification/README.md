# concord_core

The state and rules of `concord`, a Discord client for the terminal, written in Verus.
Verus proves each function in `src/` against its contract. The contracts say what the
library computes and how a state changes; where the library leaves a part of the client
out (the message action menu, how messages and image previews are drawn), its contracts
speak only of what it keeps. The rows each message takes are handed to it by whoever lays
the pane out, and the viewport is aligned over them; mouse handling states how a click or
a wheel turn moves focus, selection and scrolling, not menu actions it does not have.

- `src/` is the library: the dashboard state (panes, selection, scrolling, the pinned
  view, older-history requests), how Discord events change it, the message composer and
  its `@mention` picker, unread and notification rules, message text layout and mention
  rendering, mouse handling, the checks and route pieces of REST requests, the JSON body
  of a new message, and the profile answer as the popup shows it.
- `tests/` runs the library on concrete values.
- `app/` is the program around it: the configuration file, HTTPS requests to Discord,
  and decoding Discord's JSON.

Calls into other crates that the library makes (the clock, Unicode display widths,
a border's inner area, MIME types by file name) go through small trusted functions whose
contracts say what the library relies on.
