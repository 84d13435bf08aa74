# waylanddisplaycore

The verified core of a headless Wayland compositor whose outputs feed
GStreamer source elements.

- `src/` is the library, verified with Verus:
  - `registry`: the compositors running in a process, by Wayland socket name,
    and the active one;
  - `maybe_recv`: a value handed over once through a channel and kept;
  - `routing`: which output a new toplevel goes to, and the steps of a
    surface commit;
  - `x11`: geometry granted to X11 configure requests, fullscreen target;
  - `display`: how frame requests end, the render node, the cursor;
  - `secondary`: the start-up wait, frame loop and state changes of the
    secondary source element;
  - `shader_params`, `shader_state`: the shader parameter string and the
    bookkeeping of the shader pass.
- `app/` is the program around it: channels and threads, GStreamer, OpenGL
  and smithay calls.
- `tests/` runs the library on concrete values.
