# soap_tub

A bar of soap eroding in a tub of water, simulated with the rapier2d physics
engine and the salva2d fluid engine. The bar is a grid of square cells, each a
collider parented to one shared body and coupled with a boundary object of the
fluid simulation. Wet cells shrink; the force of the water may break a cell off
the bar onto a body of its own, after which it shrinks ten times faster; a cell
that has shrunk too far is removed from both simulations.

- `src/` is the verified library (Verus): the cells and what happens to them
  (`cell`, `erosion`), the list of cells (`roster`), the frame schedule
  (`schedule`), properties that span operations (`laws`), and the engine calls
  it makes, with their trusted contracts (`outside`).
- `app/` is the program: the viewer, the render loop, and the floating-point
  parts (sizes, forces, random chances) that the library leaves to its caller.
- `tests/` exercises the library against real engine worlds.
