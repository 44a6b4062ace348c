# sdl3_to_evdev

Bridges an SDL3 gamepad to a virtual evdev gamepad: buttons, axes, the d-pad
(as buttons or as a hat), sticks with a dead zone, motion sensors and rumble,
all set up by a TOML preset.

The crate is a Verus library with a thin program around it.

- `src/` is the verified library: reading a preset into bindings and lookup
  tables (`parsed_config`), the d-pad hat tracker (`button_tracker`), what each
  gamepad event turns into on the virtual devices (`event_processing`), the
  force-feedback slots and rumble levels (`simulated`), the integer side of
  stick processing (`calibration`) and the decisions of the event loop
  (`event_loop`). Each public function states its result in its `ensures`;
  the laws of the library are public proof functions (`lemma_*`).
- `app/` holds `main`, the TOML and command-line handling, the SDL and uinput
  devices, and the floating-point parts (stick dead zones, sensor scaling,
  fractional thresholds and rumble scales), which it hands to the library as
  integers.
- `tests/` runs the library on concrete presets and events.
