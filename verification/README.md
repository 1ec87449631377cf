# verostat

A Windows system-tray hardware monitor (CPU, GPU, RAM, network, storage) with a
dark dashboard, a floating in-game HUD and a per-core inspector.

- `src/` is the verified library (Verus): number and rate formatting, the HUD,
  dashboard, tooltip and settings texts, the tray icon's pixels, the tray menu's
  state handling, window geometry, the monitors' decisions (model-name caching,
  NVML result handling, sensor and process filtering, traffic deltas, disk totals,
  top-process selection) and the UTF-16 conversion used for Windows APIs.
- `app/` is the Windows program around it: windows, GDI painting, the tray icon
  and menu, the registry, the configuration file, the sampling thread and the
  readings themselves, which arrive as floating point.
- `tests/` runs the library on concrete values.
