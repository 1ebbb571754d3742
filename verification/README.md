# tantraos

A verified model of the TantraOS platform layer for Rust: the pieces of the
`aarch64-tantraos` standard-library port, compiler-builtins and compiler
support that compute or decide something, written in Verus with contracts.

- `src/` is the verified library: memory routines over a byte slice
  (`mem`), error codes (`pal`), the OS interface (`os`), time (`time`),
  processes (`process`), threads (`thread`), the runtime mailbox protocol
  (`runtime`), the allocator and allocator IPC requests (`allocator`,
  `mm_ipc`), EL0 polling decisions (`el0`), program start (`rt`), the target
  description (`target`), the EL0 MIR pass (`mir`), and which functions are
  compiled for EL0 together with the block layout of the polling wrapper
  around an async one (`codegen`). Emitting that wrapper through the
  compiler's code builder, and the pass's hook into the compiler, need the
  compiler's own crates and are not part of this crate.
- `app/` holds the edges: std conversions, global allocators, raw-pointer
  memory routines, supervisor calls (`arch`, AArch64 only) and the mailbox
  waits.
- `tests/` runs the library on concrete values.
