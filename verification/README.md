# glazewm_core

A verified core of a tiling window manager's session handling and
workspace focusing, written in Verus.

- `src/model.rs`: the window manager's state as plain values (monitors,
  workspaces, windows in focus order, pending sync work, emitted events),
  its mathematical view, and the lookups on it.
- `src/wellformed.rs`: well-formedness of the state and what the lookups
  find.
- `src/workspace.rs`: resolving a workspace target (name, recent, next,
  previous, direction), activating and deactivating workspaces, and
  `focus_workspace`.
- `src/events.rs`: session lock/unlock and sleep/resume handling, window
  management after a resume, and window title changes.
- `src/session.rs`: session events, the Windows message and macOS
  notification mappings, and the listener registration.
- `src/workspace_laws.rs`, `src/events_laws.rs`: proved properties over
  all states (well-formedness kept, focus results, round trips).
- `app/`: the platform side: session listeners on Windows and macOS, and
  entry points that read native state and carry out what the core asks.
