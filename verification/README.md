# iced_resizable_split

A resizable two-pane split for iced.

- `src/` is the verified library: the axis of a split and which coordinate
  follows it (`split`), the drag state machine that decides what the divider
  does with each pointer event (`state`), and the state in which the divider
  is drawn (`style`), with their laws as proof functions.
- `app/` is the iced widget around it: the `f32` geometry (ratio, divider
  rectangle, layout limits), the `State` that holds the ratio, the `Style`
  with its colour, and the `Widget` impls that turn iced events into
  `PointerEvent`s and carry out the returned `Reaction`.
