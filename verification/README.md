# bhuiz

The decision logic of a small SDL2/Vulkan media engine, verified with Verus.

- `src/duration.rs` — nanosecond time spans.
- `src/pacing.rs` — the frame-pacing flags the event thread updates and the
  drawing loop reads, the wait before each frame, and their laws.
- `src/input.rs` — translation of polled window-system events, the quit
  handling of the sample's input loop and its per-frame pause.
- `src/event.rs` — the engine's events.
- `src/errors.rs` — the error types and their conversions.
- `src/interfaces.rs` — the media, GPU and graphics interfaces and the
  adapter used without a GPU backend.
- `src/vulkan.rs` — the Vulkan state, instance checks and teardown steps.
- `src/log_line.rs` — the log line format.
- `src/logger.rs` — the logger's red failure messages and time-stamped lines,
  over `colored` and `chrono`.
- `src/drawing.rs` — the drawing loop's per-iteration and shutdown decisions.

`app/` holds the program: the C declarations, the window, the threads, the
logger and the calls that the library's functions decide on.
