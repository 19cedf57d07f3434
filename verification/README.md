# openwire

The verified core of OpenWire, a Linux soundboard and voice processor for
PipeWire.

- `src/` is the library, written in Verus: soundboard layout, edits and
  the toggle play mode (`soundboard`), hotkey labels and bindings (`hotkeys`), the pad mixer's
  voice table and block scheduling (`mixer`), preset file naming and preset
  cycling (`presets`), shared voice-chain parameters and the pitch shifter's
  FIFO cursor (`dsp`), meters (`engine`), sound durations (`player`) and
  settings (`state`). Verus proves each function against its contract;
  the public `law_*` proof functions state what holds across calls. The few
  functions that only create or read std atomics and a mutex state nothing
  of those values, which Verus cannot see; the voice-chain parameters also
  have a plain-value model, `DspBits`, with verified defaults.
- `tests/` runs the library on concrete values.
- `app/` is the program around it: the Tauri commands, the PipeWire graph,
  decoding with symphonia, the floating-point signal processing, the global
  keyboard listener and the TOML files on disk.
