//! Tests of the bindings' own logic: module loading decisions, memory-limit
//! parsing, value encodings, globals, memories, calls and host functions.
//! Where the runtime's work would come in, the tests hand over what the
//! runtime answers for the module in question.

use wamrx::{
    check_exec_env, check_instantiation, check_registration, check_result_capacity,
    cstr_buf_to_string, finish_call, has_exported_memory, has_interior_nul, host_params,
    host_result_slot, interior_nul, parse_memory_type, prepare_host_func, read_leb_u32,
    resolve_func, resolve_global, resolve_memory, write_results, Engine, Error, ExportDesc,
    FuncType, Global, GlobalType, InstanceConfig, Memory, MemoryType, Module, Mutability,
    RuntimeRefCount, Val, ValType, EXPORT_KIND_MEMORY, WASM_PAGE_SIZE,
};

/// The Wasm preamble: magic `\0asm` and version 1.
const PREAMBLE: [u8; 8] = [0x00, 0x61, 0x73, 0x6d, 0x01, 0x00, 0x00, 0x00];

fn engine() -> Engine {
    let mut runtime = RuntimeRefCount::new();
    runtime.acquire(true).unwrap()
}

fn module_bytes(sections: &[&[u8]]) -> Vec<u8> {
    let mut bytes = PREAMBLE.to_vec();
    for s in sections {
        bytes.extend_from_slice(s);
    }
    bytes
}

/// `(memory (export "<name>") <min> [<max>])`, single-byte limits.
fn memory_module(name: &[u8], min: u8, max: Option<u8>) -> Vec<u8> {
    let memory: Vec<u8> = match max {
        Some(max) => vec![0x05, 0x04, 0x01, 0x01, min, max],
        None => vec![0x05, 0x03, 0x01, 0x00, min],
    };
    let mut export = vec![0x07, (name.len() + 4) as u8, 0x01, name.len() as u8];
    export.extend_from_slice(name);
    export.extend_from_slice(&[0x02, 0x00]);
    module_bytes(&[&memory, &export])
}

fn memory_export(name: &str) -> ExportDesc {
    ExportDesc { kind: EXPORT_KIND_MEMORY, name: name.as_bytes().to_vec() }
}

#[test]
fn invalid_module_is_error() {
    let engine = engine();
    // The runtime rejects these bytes: they do not start with the magic.
    let err = Module::new(&engine, &[0, 1, 2, 3], Err("magic header not detected".to_string()))
        .unwrap_err();
    assert!(matches!(err, Error::ModuleLoad(_)));
}

#[test]
fn module_load_error_carries_runtime_message() {
    let engine = engine();
    let err = Module::new(&engine, &[0, 1, 2, 3], Err("magic header not detected".to_string()))
        .unwrap_err();
    assert_eq!(err, Error::ModuleLoad("magic header not detected".to_string()));
    assert_eq!(err.message(), "failed to load Wasm module: magic header not detected");
}

#[test]
fn loaded_module_records_declared_memory() {
    let engine = engine();
    let bytes = memory_module(b"mem", 1, Some(2));
    let module = Module::new(&engine, &bytes, Ok(())).unwrap();
    assert_eq!(module.memory_type(), Some(MemoryType::new(1, Some(2))));
    let _ = module.engine();
}

#[test]
fn module_without_memory_has_no_memory_type() {
    let engine = engine();
    // (module (func)) : type, function and code sections only.
    let bytes = module_bytes(&[
        &[0x01, 0x04, 0x01, 0x60, 0x00, 0x00],
        &[0x03, 0x02, 0x01, 0x00],
        &[0x0a, 0x04, 0x01, 0x02, 0x00, 0x0b],
    ]);
    let module = Module::new(&engine, &bytes, Ok(())).unwrap();
    assert_eq!(module.memory_type(), None);
}

#[test]
fn parse_skips_sections_before_memory() {
    // A type section and a function section come before the memory section.
    let bytes = module_bytes(&[
        &[0x01, 0x05, 0x01, 0x60, 0x01, 0x7f, 0x00],
        &[0x03, 0x02, 0x01, 0x00],
        &[0x05, 0x04, 0x01, 0x01, 0x03, 0x07],
    ]);
    assert_eq!(parse_memory_type(&bytes), Some(MemoryType::new(3, Some(7))));
}

#[test]
fn parse_reads_multi_byte_limits() {
    // minimum 300 = 0xac 0x02, maximum 65536 = 0x80 0x80 0x04.
    let bytes = module_bytes(&[&[0x05, 0x07, 0x01, 0x01, 0xac, 0x02, 0x80, 0x80, 0x04]]);
    assert_eq!(parse_memory_type(&bytes), Some(MemoryType::new(300, Some(65536))));
}

#[test]
fn parse_rejects_bad_preamble_and_truncation() {
    assert_eq!(parse_memory_type(&[0, 1, 2, 3]), None);
    assert_eq!(parse_memory_type(&[0x00, 0x61, 0x73, 0x6d, 0x01, 0x00, 0x00]), None);
    let mut bad_magic = memory_module(b"m", 1, None);
    bad_magic[1] = 0x62;
    assert_eq!(parse_memory_type(&bad_magic), None);
    // Payload size runs past the end.
    assert_eq!(parse_memory_type(&module_bytes(&[&[0x05, 0x09, 0x01, 0x00, 0x01]])), None);
    // Empty memory section.
    assert_eq!(parse_memory_type(&module_bytes(&[&[0x05, 0x01, 0x00]])), None);
    // Maximum announced by the flags but missing.
    assert_eq!(parse_memory_type(&module_bytes(&[&[0x05, 0x03, 0x01, 0x01, 0x01]])), None);
    // Only the preamble.
    assert_eq!(parse_memory_type(&PREAMBLE), None);
}

#[test]
fn leb_decodes_values_and_advances() {
    let buf = [0xe5, 0x8e, 0x26, 0x7f];
    let mut pos = 0;
    assert_eq!(read_leb_u32(&buf, &mut pos), Some(624485));
    assert_eq!(pos, 3);
    assert_eq!(read_leb_u32(&buf, &mut pos), Some(127));
    assert_eq!(pos, 4);
    assert_eq!(read_leb_u32(&buf, &mut pos), None);
    assert_eq!(pos, 4);

    let mut pos = 0;
    assert_eq!(read_leb_u32(&[0xff, 0xff, 0xff, 0xff, 0x0f], &mut pos), Some(u32::MAX));
    assert_eq!(pos, 5);
}

#[test]
fn leb_rejects_truncation_overlong_and_overflow() {
    let mut pos = 0;
    assert_eq!(read_leb_u32(&[0x80, 0x80], &mut pos), None);
    assert_eq!(pos, 2);

    let mut pos = 0;
    assert_eq!(read_leb_u32(&[0x80; 6], &mut pos), None);
    assert_eq!(pos, 5);

    // The fifth byte would set bits above the 32nd.
    let mut pos = 0;
    assert_eq!(read_leb_u32(&[0xff, 0xff, 0xff, 0xff, 0x1f], &mut pos), None);
    assert_eq!(pos, 5);
}

#[test]
fn valkind_codes_roundtrip() {
    for t in [ValType::I32, ValType::I64, ValType::F32, ValType::F64] {
        assert_eq!(ValType::from_valkind(t.valkind()), Some(t));
    }
    assert_eq!(ValType::from_valkind(4), None);
    assert_eq!(ValType::from_valkind(128), None);
    assert_eq!(ValType::I64.name(), "i64");
}

#[test]
fn call_roundtrips_all_numeric_types() {
    // Each value survives the raw 64-bit slot it is passed in.
    let values = [
        Val::I32(-123456),
        Val::I64(i64::MIN + 7),
        Val::F32((-3.5f32).to_bits()),
        Val::F64((-123456.5f64).to_bits()),
    ];
    for v in values {
        assert_eq!(Val::from_raw_slot(v.ty(), v.to_raw_slot()), v);
    }
    assert_eq!(f32::from_bits(match values[2] {
        Val::F32(b) => b,
        _ => unreachable!(),
    }), -3.5);
}

#[test]
fn raw_slot_layout() {
    assert_eq!(Val::I32(-1).to_raw_slot(), 0xffff_ffff);
    assert_eq!(Val::I64(-1).to_raw_slot(), u64::MAX);
    assert_eq!(Val::from_raw_slot(ValType::I32, 0xdead_beef_ffff_fffe), Val::I32(-2));
    assert_eq!(Val::from_raw_slot(ValType::F32, 0x1234_5678_4060_0000), Val::F32(0x4060_0000));
    assert_eq!(ValType::F64.default_value(), Val::F64(0));
}

#[test]
fn func_ty_reports_signature() {
    let ty = FuncType::from_valkinds(&[0, 3], &[1]);
    assert_eq!(ty.params(), &[ValType::I32, ValType::F64]);
    assert_eq!(ty.results(), &[ValType::I64]);
    assert_eq!(ty, FuncType::new(vec![ValType::I32, ValType::F64], vec![ValType::I64]));
}

#[test]
fn unmodelled_kinds_report_as_i32() {
    let ty = FuncType::from_valkinds(&[4, 128], &[129]);
    assert_eq!(ty, FuncType::new(vec![ValType::I32, ValType::I32], vec![ValType::I32]));
}

#[test]
fn signature_strings() {
    let mul = FuncType::new(vec![ValType::I32, ValType::I32], vec![ValType::I32]);
    assert_eq!(mul.signature_bytes(), b"(ii)i".to_vec());
    let observe = FuncType::new(vec![ValType::I64, ValType::F64], vec![]);
    assert_eq!(observe.signature_bytes(), b"(IF)".to_vec());
    let none = FuncType::new(vec![], vec![]);
    assert_eq!(none.signature_bytes(), b"()".to_vec());
}

#[test]
fn host_function_via_raw_trampoline() {
    let ty = FuncType::new(vec![ValType::I32, ValType::I32], vec![ValType::I32]);
    let sig = prepare_host_func("env", "mul", &ty).unwrap();
    assert_eq!(sig, b"(ii)i".to_vec());
    assert_eq!(check_registration(true), Ok(()));

    let params = host_params(&ty, &[6, 7]);
    assert_eq!(params, vec![Val::I32(6), Val::I32(7)]);
    let mut results = ty.default_results();
    assert_eq!(results, vec![Val::I32(0)]);
    if let (Val::I32(a), Val::I32(b)) = (params[0], params[1]) {
        results[0] = Val::I32(a * b);
    }
    assert_eq!(host_result_slot(&results), Some(42));
}

#[test]
fn host_function_mixed_types_and_no_result() {
    let ty = FuncType::new(vec![ValType::I64, ValType::F64], vec![]);
    let slots = [9_000_000_000u64, 1.25f64.to_bits()];
    let params = host_params(&ty, &slots);
    assert_eq!(params, vec![Val::I64(9_000_000_000), Val::F64(1.25f64.to_bits())]);
    assert!(ty.default_results().is_empty());
    assert_eq!(host_result_slot(&[]), None);
}

#[test]
fn host_function_names_with_nul_are_rejected() {
    let ty = FuncType::new(vec![], vec![]);
    assert_eq!(
        prepare_host_func("e\0nv", "f", &ty),
        Err(Error::Instantiate("module name contains an interior NUL byte".to_string()))
    );
    assert_eq!(
        prepare_host_func("env", "f\0", &ty),
        Err(Error::Instantiate("function name contains an interior NUL byte".to_string()))
    );
    assert_eq!(
        check_registration(false),
        Err(Error::Instantiate("failed to register host function with WAMR".to_string()))
    );
    assert!(has_interior_nul("a\0b"));
    assert!(!has_interior_nul("ab"));
    assert_eq!(
        interior_nul("module name"),
        Error::Instantiate("module name contains an interior NUL byte".to_string())
    );
}

#[test]
fn trap_surfaces_as_error() {
    let mut results = [Val::I32(0)];
    let err = finish_call(false, "unreachable".to_string(), &[], &mut results).unwrap_err();
    assert!(matches!(err, Error::Trap(_)), "expected trap, got {err:?}");
    assert_eq!(results, [Val::I32(0)]);
}

#[test]
fn call_writes_results_and_keeps_extra_slots() {
    let mut results = [Val::I32(0), Val::I64(5)];
    finish_call(true, String::new(), &[Val::I32(42)], &mut results).unwrap();
    assert_eq!(results, [Val::I32(42), Val::I64(5)]);

    let mut short = [Val::I32(0)];
    write_results(&mut short, &[Val::I32(1), Val::I32(2)]);
    assert_eq!(short, [Val::I32(1)]);
}

#[test]
fn too_small_result_buffer_is_signature_mismatch() {
    assert_eq!(
        check_result_capacity(1, 0),
        Err(Error::SignatureMismatch { expected: 1, provided: 0 })
    );
    assert_eq!(check_result_capacity(1, 3), Ok(()));
    assert_eq!(check_result_capacity(0, 0), Ok(()));
}

#[test]
fn missing_export_is_error() {
    let err = resolve_func::<u32>("absent", None).unwrap_err();
    assert!(matches!(err, Error::FuncNotFound(_)));
    assert_eq!(resolve_func("present", Some(7u32)), Ok(7));
}

#[test]
fn exported_globals_get_set_and_type() {
    // Mutable i32 global: type, read, write, read back.
    let g = resolve_global("g", Some((0, true))).unwrap();
    assert_eq!(g.ty(), GlobalType::new(ValType::I32, Mutability::Mutable));
    assert_eq!(g.get(7), Val::I32(7));

    let stored = g.set(Val::I32(42)).unwrap();
    assert_eq!(g.get(stored), Val::I32(42));

    // Setting a wrong-typed value is a type mismatch.
    assert!(matches!(g.set(Val::I64(1)), Err(Error::TypeMismatch { .. })));

    // Immutable i64 global: type, read, and rejected write.
    let c = resolve_global("c", Some((1, false))).unwrap();
    assert_eq!(c.ty(), GlobalType::new(ValType::I64, Mutability::Const));
    assert_eq!(c.get(100), Val::I64(100));
    assert_eq!(c.set(Val::I64(1)), Err(Error::GlobalImmutable));

    // Missing global.
    assert!(matches!(resolve_global("nope", None), Err(Error::GlobalNotFound(_))));
}

#[test]
fn global_with_unmodelled_type_is_unsupported() {
    assert!(matches!(resolve_global("v", Some((4, true))), Err(Error::UnsupportedType)));
    assert!(matches!(Global::from_raw(129, false), Err(Error::UnsupportedType)));
}

#[test]
fn negative_global_values_roundtrip_through_storage() {
    let g = Global::new(ValType::I64, Mutability::Mutable);
    let stored = g.set(Val::I64(-9_000_000_000)).unwrap();
    assert_eq!(g.get(stored), Val::I64(-9_000_000_000));
    let f = Global::new(ValType::F32, Mutability::Mutable);
    let stored = f.set(Val::F32(2.5f32.to_bits())).unwrap();
    assert_eq!(f.get(stored), Val::F32(2.5f32.to_bits()));
}

#[test]
fn exported_memory_data_size_and_type() {
    let engine = engine();
    let bytes = memory_module(b"mem", 1, Some(2));
    let module = Module::new(&engine, &bytes, Ok(())).unwrap();
    let exports = [memory_export("mem")];
    let (_, mem) = resolve_memory("mem", &exports, Some(()), module.memory_type()).unwrap();
    assert_eq!(mem.ty(), MemoryType::new(1, Some(2)));
    assert_eq!(Memory::size(1, WASM_PAGE_SIZE), 1);
    assert_eq!(Memory::byte_len(1, WASM_PAGE_SIZE), 64 * 1024);
}

#[test]
fn multi_page_memory_reports_true_page_count() {
    let engine = engine();
    let bytes = memory_module(b"mem", 2, Some(4));
    let module = Module::new(&engine, &bytes, Ok(())).unwrap();
    let exports = [memory_export("mem")];
    let (_, mem) = resolve_memory("mem", &exports, Some(()), module.memory_type()).unwrap();
    assert_eq!(mem.ty(), MemoryType::new(2, Some(4)));
    // The runtime folds a memory that never grows into one oversized page.
    assert_eq!(Memory::size(1, 2 * WASM_PAGE_SIZE), 2);
    assert_eq!(Memory::byte_len(1, 2 * WASM_PAGE_SIZE), 2 * 64 * 1024);
}

#[test]
fn growable_memory_size_tracks_growth() {
    let engine = engine();
    let bytes = memory_module(b"mem", 1, Some(3));
    let module = Module::new(&engine, &bytes, Ok(())).unwrap();
    let exports = [memory_export("mem")];
    let (_, mem) = resolve_memory("mem", &exports, Some(()), module.memory_type()).unwrap();
    assert_eq!(mem.ty(), MemoryType::new(1, Some(3)));
    assert_eq!(Memory::size(1, WASM_PAGE_SIZE), 1);
    // After one `memory.grow` the runtime reports two pages.
    assert_eq!(Memory::size(2, WASM_PAGE_SIZE), 2);
    assert_eq!(Memory::byte_len(2, WASM_PAGE_SIZE), 2 * 64 * 1024);
}

#[test]
fn memory_byte_len_saturates() {
    assert_eq!(Memory::byte_len(u64::MAX, 2), u64::MAX);
    assert_eq!(Memory::size(u64::MAX, 2), u64::MAX / WASM_PAGE_SIZE);
    assert_eq!(Memory::size(0, WASM_PAGE_SIZE), 0);
}

#[test]
fn memory_without_declared_maximum_has_none() {
    let engine = engine();
    let bytes = memory_module(b"m", 1, None);
    let module = Module::new(&engine, &bytes, Ok(())).unwrap();
    let exports = [memory_export("m")];
    let (_, mem) = resolve_memory("m", &exports, Some(()), module.memory_type()).unwrap();
    assert_eq!(mem.ty(), MemoryType::new(1, None));
    assert_eq!(mem.ty().maximum(), None);
}

#[test]
fn missing_memory_is_error() {
    let engine = engine();
    let bytes = memory_module(b"m", 1, None);
    let module = Module::new(&engine, &bytes, Ok(())).unwrap();
    let exports = [memory_export("m")];
    assert!(matches!(
        resolve_memory("absent", &exports, Some(()), module.memory_type()),
        Err(Error::MemoryNotFound(_))
    ));
    // A function export of that name is no memory.
    let func_export = [ExportDesc { kind: 0, name: b"m".to_vec() }];
    assert!(!has_exported_memory(&func_export, "m"));
    assert!(has_exported_memory(&exports, "m"));
    assert!(matches!(
        resolve_memory("m", &exports, Some(()), None),
        Err(Error::MemoryNotFound(_))
    ));
}

#[test]
fn instantiate_with_custom_config() {
    let mut config = InstanceConfig::new();
    config.exec_stack_size(1024 * 1024).aux_stack_size(32 * 1024).heap_size(0);
    assert_eq!(config.get_exec_stack_size(), 1024 * 1024);
    assert_eq!(config.get_aux_stack_size(), 32 * 1024);
    assert_eq!(config.get_heap_size(), 0);

    let defaults = InstanceConfig::default();
    assert_eq!(defaults.get_aux_stack_size(), 64 * 1024);
    assert_eq!(defaults.get_heap_size(), 0);
    assert_eq!(defaults.get_exec_stack_size(), 8 * 1024 * 1024);
    assert_eq!(InstanceConfig::new(), defaults);

    assert_eq!(check_instantiation(Some(3u8), String::new()), Ok(3));
    assert_eq!(
        check_instantiation::<u8>(None, "out of memory".to_string()),
        Err(Error::Instantiate("out of memory".to_string()))
    );
    assert_eq!(
        check_exec_env::<u8>(None),
        Err(Error::Instantiate("failed to create execution environment".to_string()))
    );
}

#[test]
fn runtime_is_initialized_by_first_engine_and_torn_down_by_last() {
    let mut runtime = RuntimeRefCount::new();
    assert!(runtime.needs_init());
    assert_eq!(runtime.acquire(false).unwrap_err(), Error::RuntimeInit);
    assert_eq!(runtime.live(), 0);
    let _a = runtime.acquire(true).unwrap();
    assert!(!runtime.needs_init());
    // Later engines do not initialize again, whatever the flag says.
    let _b = runtime.acquire(false).unwrap();
    assert_eq!(runtime.live(), 2);
    assert!(!runtime.release());
    assert!(runtime.release());
    assert_eq!(runtime.live(), 0);
    assert!(runtime.needs_init());
}

#[test]
fn error_messages() {
    assert_eq!(
        Error::SignatureMismatch { expected: 2, provided: 10 }.message(),
        "signature mismatch: expected 2, provided 10"
    );
    assert_eq!(
        Error::TypeMismatch { expected: ValType::I32, provided: ValType::F64 }.message(),
        "type mismatch: expected i32, provided f64"
    );
    assert_eq!(Error::FuncNotFound("add".to_string()).message(), "exported function not found: add");
    assert_eq!(Error::GlobalImmutable.message(), "cannot set an immutable global");
    assert_eq!(Error::MemoryNotFound("m".to_string()).message(), "exported memory not found: m");
    assert_eq!(Error::RuntimeInit.message(), "failed to initialize the WAMR runtime");
    assert_eq!(
        Error::UnsupportedType.message(),
        "unsupported Wasm value type (only i32/i64/f32/f64)"
    );
    assert_eq!(Error::Trap("boom".to_string()).message(), "Wasm trap: boom");
}

#[test]
fn c_buffers_stop_at_first_nul() {
    assert_eq!(cstr_buf_to_string(b"hello\0garbage"), "hello");
    assert_eq!(cstr_buf_to_string(b"no terminator"), "no terminator");
    assert_eq!(cstr_buf_to_string(&[0u8; 4]), "");
    assert_eq!(cstr_buf_to_string(&[0x66, 0xff, 0x00]), "f\u{fffd}");
}

#[test]
fn call_exported_add_i32() {
    // `add(2, 40)` returns one i32; the runtime hands back 42.
    let mut results = [Val::I32(0)];
    check_result_capacity(1, results.len()).unwrap();
    finish_call(true, String::new(), &[Val::I32(42)], &mut results).unwrap();
    assert_eq!(results[0], Val::I32(42));
}

#[test]
fn host_function_capturing_state() {
    // `record(x)` is called with 10 and then 32; the host accumulates them.
    let ty = FuncType::new(vec![ValType::I32], vec![]);
    assert_eq!(prepare_host_func("env", "record", &ty).unwrap(), b"(i)".to_vec());
    let mut sum = 0i32;
    for slot in [10u64, 32u64] {
        let params = host_params(&ty, &[slot]);
        if let Val::I32(x) = params[0] {
            sum += x;
        }
        assert_eq!(host_result_slot(&ty.default_results()), None);
    }
    assert_eq!(sum, 42);
}

#[test]
fn memory_fields_past_section_end_are_malformed() {
    // The section declares a one-byte payload, but its limits need three.
    let bytes = module_bytes(&[&[0x05, 0x01, 0x01, 0x00, 0x02]]);
    assert_eq!(parse_memory_type(&bytes), None);
    // A maximum announced by the flags but lying past the payload.
    let bytes = module_bytes(&[&[0x05, 0x03, 0x01, 0x01, 0x01, 0x02]]);
    assert_eq!(parse_memory_type(&bytes), None);
    // The same limits inside a payload of the right size are read.
    let bytes = module_bytes(&[&[0x05, 0x04, 0x01, 0x01, 0x01, 0x02]]);
    assert_eq!(parse_memory_type(&bytes), Some(MemoryType::new(1, Some(2))));
}

#[test]
fn global_storage_widths() {
    assert_eq!(ValType::I32.storage_bytes(), 4);
    assert_eq!(ValType::F32.storage_bytes(), 4);
    assert_eq!(ValType::I64.storage_bytes(), 8);
    assert_eq!(ValType::F64.storage_bytes(), 8);
    let g = Global::new(ValType::I32, Mutability::Mutable);
    assert_eq!(g.storage_bytes(), 4);
    assert!(g.set(Val::I32(-1)).unwrap() <= u32::MAX as u64);
}
