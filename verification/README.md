# sctd

A daemon that sets the displays' colour temperature from the sun's position.

- `src/` is the verified core: the white-point table held exactly in
  fixed point, with its shape proved (`table`), which rows a temperature
  blends (`whitepoint`), the fixed temperatures of polar skies and of a reset
  (`temperature`), and the daemon's decision on each wake-up (`daemon`).
- `app/` is the program: command line, clock, solar position, redshift's
  elevation ramp, the floating-point interpolation and the X11/XRandR
  gamma calls.
