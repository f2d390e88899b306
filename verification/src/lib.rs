//! Safe, Wasmi/Wasmtime-inspired bindings for the WebAssembly Micro Runtime
//! (WAMR) fast interpreter: the verified core.
//!
//! This crate holds what the bindings decide for themselves: value and type
//! descriptions and their raw encodings, per-instance configuration, the
//! error type and its messages, the parser that recovers a module's declared
//! memory limits, the reference count that governs the process-global
//! runtime, and the checks and marshalling that calls, globals, memories and
//! host functions go through. The calls into the C runtime are made by the
//! embedding layer, which hands the runtime's answers to the functions here.

mod config;
mod engine;
mod error;
mod func;
mod global;
mod instance;
mod leb;
mod linker;
mod memory;
mod module;
mod util;
mod value;

pub use self::config::InstanceConfig;
pub use self::engine::{Engine, RuntimeRefCount};
pub use self::error::{interior_nul, Error};
pub use self::func::{check_result_capacity, finish_call, write_results};
pub use self::global::Global;
pub use self::instance::{
    check_exec_env, check_instantiation, has_exported_memory, resolve_func, resolve_global,
    resolve_memory, ExportDesc, EXPORT_KIND_MEMORY,
};
pub use self::leb::read_leb_u32;
pub use self::linker::{check_registration, host_params, host_result_slot, prepare_host_func};
pub use self::memory::{Memory, WASM_PAGE_SIZE};
pub use self::module::{parse_memory_type, Module};
pub use self::util::{cstr_buf_to_string, has_interior_nul, ERROR_BUF_SIZE};
pub use self::value::{
    FuncType, GlobalType, MemoryType, Mutability, Val, ValType, WASM_F32, WASM_F64, WASM_I32,
    WASM_I64,
};
