# CosG

A small GPU user-interface toolkit (buttons, labels, containers, grids over a
wgpu renderer and a winit window), with its decision logic verified in Verus.

- `src/` — the verified library `cosg`:
  - `color`: packed `0xRRGGBBAA` codes and their channels, both ways.
  - `theme`: colour and font roles, and the violet dark palette.
  - `widget`: the kinds of pointer events widgets receive.
  - `widgets::button`: the button's label and interaction state machine, with
    laws on when its action runs.
  - `widgets::label`: a label's text and font size choice.
  - `paint`: painter's order of nested widgets and the triangulation of
    rectangles into the vertex buffer.
  - `app`: the default window settings and the routing of window events.
- `app/` — the float geometry of widgets, the renderer and the event loop,
  calling the library for each decision.
- `tests/` — tests of the library on concrete values.
