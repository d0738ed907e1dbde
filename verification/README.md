# lanner

A spotlight screen-region recorder for wlroots Wayland compositors: draw a
rectangle, record only that area to video.

The crate is split in two:

- `src/` is the library, verified with Verus. It holds every decision the
  program takes: the decimal texts it prints and parses, where the floating
  control bar goes so it is never over the captured region, the
  `wf-recorder` and `ffmpeg` command lines, the Mic+System `pactl` plan, the
  lockfile protocol behind the keybind toggle, what each output's overlay
  paints, and the overlay's phase machine (select, count down, record, quit).
- `app/` is the program around it: GTK4 and layer-shell windows, Cairo
  drawing, processes, files and signals. It performs the library's decisions.

`tests/` runs the library on concrete values.
