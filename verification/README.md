# bevy_metalfx

Verified decision logic of a Bevy plugin for Apple MetalFX upscaling.

- `src/` is the library, proved with Verus: which effect observation is
  current and fresh (`effect`, `effect_runtime`), when a temporal-history
  reset is owed (`history`), the adaptive-resolution governor (`adaptive`,
  `governor`, `adaptive_runtime`, `frame_cost`), GPU timestamp acceptance and
  query-slot phases (`frame_timing`), the bilinear control pass (`control`),
  scaler lifecycle choices (`scaler`), the Halton jitter sequence (`jitter`),
  telemetry rings and counters (`ring`, `present`), diagnostic creation
  faults (`diagnostic_fault`) and what the plugin installs (`plugin`).
- `tests/` exercises the library on concrete values, including the adaptive
  controller's trajectories driven through the verified governor.
- `app/` wires the library into Bevy: the plugin, its resources and systems,
  and the floating-point halves of the adaptive controller, of the scale
  presets and of the telemetry statistics.
