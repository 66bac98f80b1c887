# postora_planner

Planning of Fedora post-install changes, verified with Verus: which actions a
system is offered, which of them are already done, and which commands carry
out a selection of them.

- `src/` is the verified library. `model` holds the data types, `sets` the
  small sets they use, `text` the string handling the parsers rest on,
  `detect` and `host` read what system tools and files reported, `commands`
  and `plan` decide the commands and the plan, `request` turns a selection
  into an ordered command list, and `display` holds the texts and decisions
  of the desktop front end.
- `app/main.rs` is the privileged helper: it reads a JSON request, probes the
  system, asks the library for the commands and runs them.
- `tests/` exercises the library on concrete values.
