# steno-core

Core library for automatic meeting audio capture, detection and relay.

- `src/` — the verified library: capture capabilities and configuration, the
  capture manager's start/stop decisions, the WAV writer's decisions (file
  names, sample format, PCM decoding, packet routing), meeting detection
  decisions and their laws, application and UI state, configuration
  defaults, error messages and tray status text.
- `app/` — the asynchronous and I/O side around it: capture backends and
  their manager over tokio channels, WAV files through hound, the event
  bus, the asynchronous detection check, the cpal activity sensor, the
  error type shown to the shell, serde forms of the configuration, and the
  shell's command handlers.
- `tests/` — tests of the library.
