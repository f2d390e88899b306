# wamrx

Safe, Wasmi/Wasmtime-inspired bindings for the WebAssembly Micro Runtime
(WAMR) fast interpreter, with the bindings' own logic verified in Verus.

## Layout

- `src/` — the verified library (`wamrx`). It holds everything the bindings
  decide for themselves, each function with a contract proved by Verus:
  - `value.rs`: `ValType`, `Val` (floats carried as their bit patterns),
    `GlobalType`, `MemoryType`, `FuncType`; value-kind codes, the 64-bit raw
    argument slots, native signature strings.
  - `leb.rs`, `module.rs`: LEB128 decoding and the parser that recovers a
    module's declared memory limits; `Module` built from the runtime's verdict
    on loading.
  - `engine.rs`: `Engine` and the reference count that decides when the
    process-global runtime is initialized and destroyed.
  - `config.rs`: `InstanceConfig`.
  - `func.rs`, `global.rs`, `memory.rs`, `instance.rs`, `linker.rs`: the
    checks and marshalling around calls, globals, memories, export lookup and
    host-function registration.
  - `error.rs`, `util.rs`: the error type and its messages, C-string helpers.
- `app/` — the runtime-facing layer: the C declarations of the WAMR embedding
  API, the handles (`Engine`, `Module`, `Linker`, `Instance`, `Func`,
  `Global`, `Memory`), the host-function trampoline, and `Val` with real
  floats. It performs each C call and hands the answer to the library.
- `tests/` — tests of the library.

Building `app/` needs WAMR's static `libiwasm` (built with CMake and a C
compiler); the library and its tests need neither.
