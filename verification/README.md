# niri_workspace

The bookkeeping core of a workspace in a scrollable-tiling Wayland compositor, verified with Verus.

A workspace belongs to an output, remembers the output it came from, and is laid out for a scale, a
transform, a view size and a working area. When any of these change, its windows and its scrolling
layer have to be told, in the right order and no more often than needed. The library decides what
changes and who is told what; it does no input or output itself.

## Layout

- `src/` is the verified library.
  - `binary64`: double-precision numbers by their bit pattern: comparison, negation and rounding.
  - `geometry`: points, sizes, rectangles, transforms and scales.
  - `ids`: identifiers and the counter they come from.
  - `output`: outputs as a workspace sees them.
  - `scrolling`: what the scrolling layer is configured with.
  - `effects`: what the shell is asked to do.
  - `state`: the abstract state of a workspace and what each operation makes of it.
  - `workspace`: workspaces, their outputs and their view.
  - `insertion`: windows that come into and go out of a workspace.
  - `tiles`: finding windows, and what is under the pointer.
  - `invariants`: the check that a workspace and its scrolling layer fit together.
  - `laws`: what holds across operations, as proofs.
- `app/` is the shell on top of smithay. It carries out the effects, does the floating-point
  arithmetic, and passes on to the scrolling layer what is that layer's own business.
- `tests/` runs the library on concrete values.
