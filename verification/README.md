# gyroflow_ffi

A bridge between a caller that speaks C and the `gyroflow_core` video stabilisation engine.

The bridge's decisions are a library that Verus verifies: which settings the engine gets, in which
order, with which numbers, and what the caller is answered. The library touches neither the engine
nor a file nor a pointer. Each call becomes an exchange that issues one action at a time and is told
what came of it.

- `src/load.rs`: loading a video and its motion data
- `src/level.rs`: choosing how strongly to stabilise (off, low, medium, high)
- `src/rotation.rs`: turning the picture
- `src/frame.rs`: stabilising one frame
- `src/fovs.rs`: the spread of the fields of view, for diagnostics
- `src/double.rs`: double-precision numbers as bit patterns
- `src/size.rs`, `src/status.rs`: picture sizes and answer codes
- `app/`: the C interface, which performs the actions on the engine

What an exchange does is stated as a script, a sequence of actions, and proved action by action. The
proof functions named `law_...` state what holds of all scripts: that a null pointer is never used,
that the engine is recomputed after its last setting, that a quarter turn swaps the sides of the
output, and more.

The engine, `gyroflow_core`, is built from its own repository.
