# grove

Much of the logic of Grove, a terminal front end that runs AI coding agents in git
worktrees and tmux sessions, written in Verus with its behaviour stated as
contracts and proved.

## Layout

- `src/` — the verified library.
  - `pi/` — the pi-session layer: JSON-RPC messages, the tool registry, the
    conversions between actions and RPC calls, the session manager and the
    RPC bridge's bookkeeping, with laws relating them (`pi/laws.rs`).
  - `keys.rs`, `key_events.rs`, `setup_keys.rs`, `settings_keys.rs` — what
    each key press means in each screen and dialog.
  - `tasks.rs`, `task_nav.rs`, `task_list.rs`, `task_order.rs` — the task
    list: building it from fetched tasks, ordering children under parents
    (and why ordering twice changes nothing), which tasks are shown, and
    moving, expanding and filtering in it.
  - `task_status.rs`, `task_agent.rs`, `submit.rs` — the status of linked
    tasks (as polled, and as cycled by the user), starting agents on tasks,
    and what submitting the input prompt leads to.
  - `pm_setup.rs`, `git_setup.rs`, `setup_wizards.rs`, `panels.rs`,
    `file_browser.rs` — the setup dialogs and first-run wizards, the smaller
    panels and the file browser as state machines:
    each action's effect and what it asks its caller to load, fetch or show.
  - `agent.rs`, `poll.rs`, `git_diff.rs`, `ids.rs`, `text.rs`, `decimal.rs` —
    agents and status debouncing, the polling bookkeeping, the combined diff
    view, agent ids, and text and number helpers.
- `tests/` — tests of the library.
- `app/` — a small command-line program around the library: it runs a pi
  session over the RPC bridge with tokio and serde; it also holds the
  conversion of crossterm key events into the library's key type.

Everything outside the library is reached through a few trusted wrappers,
each stating what the called function's documentation promises.
