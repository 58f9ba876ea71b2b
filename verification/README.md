# pane_windows

Focus bookkeeping for groups of split panes, and the decisions behind native window management on a
Mac, verified with [Verus](https://github.com/verus-lang/verus).

- `src/` is the verified library. It never talks to the desktop toolkit: a caller hands in what it
  observed, and carries out what it gets back. Floating-point coordinates, GPU devices, scenes and
  callbacks pass through it as type parameters.
  - `pane`, `focus_state`, `focus_laws`: which pane of a group has the focus, which terminal session
    is active, and which keyboard input source each pane was left with.
  - `window_open`, `window`, `window_manager`, `window_buttons`, `platform`: opening and releasing
    windows, and finding the window that a request is for.
  - `window_state`, `events`, `resizing`, `synthetic_drag`: redrawing, resizing and events of one
    window.
- `tests/` runs the library on concrete values.
- `app/` is ordinary Rust around it: AppKit, Metal and the Objective-C window classes.
