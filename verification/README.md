# vaultquad

The logic of a small immediate-mode game toolkit, verified with Verus.

`src/` is the verified library:

- `scene` — the scene stack: which scenes live, which run in the background,
  which scene callbacks a frame's update runs, in what order,
  what each scene action (push, pop, pop many, bottom, overlay, replace,
  exit) does to them, and which scene callbacks follow a push, an overlay or
  a pop, in what order, and which of them gets a pop chain's result.
- `ui` — the widget box kept by id; `ui::widgets::text_input` (the editing
  state of a text input: text, cursor, selection, key repeat, every edit,
  a frame's keys and input-method text),
  `button` and `toggle` (their pointer state), `window` (window settings).
- `helper::chain` — chains of operations on a value, owned or held weakly;
  `helper::watch` — a stopwatch.
- `selection`, `text`, `clock` — small shared pieces.

Drawing (the widgets' `draw`, a window's frame and its `ui`/`begin`/`end`
calls, text rendering) needs a rendering toolkit's UI context, window
context and fonts, which are not part of this project; only the settings
and state that drawing reads are here.

`app/` holds what stays outside the verifier: the async scene driver, the
global singletons, the system clipboard, and floating-point geometry
(scrolling, viewports, pixel positions, line wrapping).
