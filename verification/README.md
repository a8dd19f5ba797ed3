# rain_simulator

A falling-particle weather simulation drawn with SDL3.

- `src/` is the verified library: the particle field (`rain`), the random
  draws it makes through `fastrand` (`random`), and the SDL handle types,
  initialisation marker and window-size rule (`sdl`).
- `app/` is the program: the SDL bindings and calls (and the lifetimes that
  tie renderers and textures to an initialised SDL), the event loop, and the
  floating-point temperature and drawing angle.
- `tests/` exercises the library.
