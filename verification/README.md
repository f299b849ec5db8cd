# engine

The verified core of a small 3D game engine, written in Verus.

- `src/` is the library. Every function carries a contract. Verus proves them all except
  those of the small wrappers that call `std`, `wavefront_obj` and `image`, which it takes
  on trust; and the state machine's contracts speak of the hooks of the `State` trait
  through relations that each implementation states (an implementation that states none is
  held to nothing):
  - `state`: the stack-based game-state machine (which hook runs on which state, in which
    order, and which state ends where), and the entities that go with a stopped state;
  - `wavefront_text`: OBJ and MTL text read with `wavefront_obj`, with every number rounded
    to single precision by `float_bits`; an OBJ text whose negative face indices would
    overflow the parser's arithmetic is refused before the parser sees it;
  - `wavefront`, `assets`, `asset_loader`: Wavefront OBJ/MTL data as plain values, the
    vertex deduplication that turns a geometry into an indexed mesh part, the meshes of an
    OBJ set and its material library's text, and the upside-down turn of diffuse maps
    (through the `image` crate);
  - `graphics`: colors, material shading, bitmap-font layout, shader resource names, the
    backend names, model data helpers, debug lines;
  - `input`, `game`, `ui`: keyboard and mouse input, the decisions of the game's states,
    and the developer console.
- `app/` is the program around it: file and image loading, scene files,
  camera math with `nalgebra`, and a console that reads commands from standard input.
- `tests/` runs the library on concrete values.

Floats travel through the library as `to_bits()` patterns; `float_bits` compares them as
IEEE 754 `==` does.
