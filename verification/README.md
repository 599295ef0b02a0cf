# Kickmess

A kick drum synthesizer plugin (VST). The crate is split in two:

- `src/` is a library verified with Verus: the random number generator,
  the parameter definitions and sets, MIDI note decoding and the choice of
  voices, the split of an audio buffer into blocks, the release envelope's
  ramp, the preset text format, the log queue, frame time statistics, and
  the user interface's input state machine and grid layout. Every public
  function states its result in its contract, and the laws that relate the
  functions (a preset reads back what was written, the log returns what was
  logged, the blocks cover the buffer, ...) are proof functions.
- `app/` is the plugin around it: the VST host interface, the floating
  point signal processing (oscillators, filters, envelopes, parameter
  smoothing), the log writer thread and the declaration of the user
  interface.

`tests/` runs the library on concrete values.
