# smelt

The logic behind the settings and the session list of Smelt, a desktop cockpit for coding agents.
It is written in Verus: every function states what it does, and the statement is proved.

- `src/agent_hooks` puts Smelt's hooks into the configuration files of agents, takes them out
  again and tells whether they are there. Hooks of others are left alone.
- `src/settings` holds what the settings windows show and do: the sidebar and its search, the
  launch menu, appearance, updates, plugins, sign-ins and remote access.
- `src/session_list` holds the list of sessions: groups, headers, rows, panes, menus, dragging,
  quotas, times, and the menu that starts sessions.
- `src/json.rs`, `src/shell.rs` and `src/text.rs` are what the others build on.
- `app` is ordinary Rust around the library: files, clocks, stored documents and figures with
  fractions.
- `tests` runs the library on examples.

The agents that Smelt knows are a table (`settings::launch::terminal_agents`). Its first entry is
named by the program that uses the library.
