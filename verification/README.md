# canvas_window

The input and sizing logic of a WebGL2 window drawn in an HTML canvas, verified
with Verus.

- `src/keys.rs`: the keyboard codes the window knows and the keys they name.
- `src/input.rs`: the input state machine. Each browser event (mouse, wheel,
  touch, keyboard) is a step from one state to the next, queuing at most one
  input event and saying whether the window claims the browser event.
- `src/input_laws.rs`: what holds over every step and every run of steps.
- `src/geometry.rs`: canvas sizes in CSS and device pixels, and the CSS text.
- `src/error.rs`: the errors of setting the window up and of registering
  listeners.
- `app/`: the browser side (web-sys and wasm-bindgen): it reads the browser's
  events into plain values, runs the animation-frame loop, and does the
  floating-point conversions.
