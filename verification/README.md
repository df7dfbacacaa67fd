# status_bar

The core of a small system status monitor that sits in the tray or menu bar
and shows CPU, memory, GPU and network figures.

- `src/` is the library, verified with Verus: configuration defaults and
  sanitising (`config`), network counter deltas (`network_speed`), GPU
  readings and sampler decisions (`gpu`), the status texts and pressure
  level (`system_metrics`), the tray tooltip state machine and menu
  commands (`tray`), the floating bar's cursor decision (`floating_bar`),
  the pacing of the sampling loop (`schedule`), directory lookup
  (`logger`, `platform`), and the integer reading of IEEE-754 values
  (`float_bits`) and of character sequences (`text`) that these build on.
- `app/` is the desktop program around it: windows, tray icon, threads,
  file I/O, JSON (de)serialisation, operating-system calls and the
  floating-point arithmetic of speeds, percentages and screen positions.
- `tests/` exercise the library, including comparisons of its integer
  number formatting with the standard library's floating-point formatting.
