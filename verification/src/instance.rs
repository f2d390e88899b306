//! The decisions an instance makes around the runtime: whether
//! instantiation succeeded, and how exported functions, globals and memories
//! are resolved by name.

use vstd::prelude::*;
use vstd::string::StringSliceAdditionalSpecFns;

use crate::error::{owned_name, Error};
use crate::global::Global;
use crate::memory::Memory;
use crate::value::{MemoryType, ValType};

verus! {

/// WAMR's export-kind code for a linear memory.
pub const EXPORT_KIND_MEMORY: u8 = 2;

/// One export of a module as the runtime lists it: its kind code and the
/// bytes of its name.
#[derive(Debug, Clone)]
pub struct ExportDesc {
    /// The export-kind code.
    pub kind: u8,
    /// The export's name, without a terminating NUL.
    pub name: Vec<u8>,
}

/// WAMR's export kinds are numbered function 0, table 1, memory 2, global 3;
/// a memory export is recognised by kind 2.
pub proof fn lemma_memory_export_kind()
    ensures
        EXPORT_KIND_MEMORY == 2u8,
{
}

/// Whether the export list holds a memory exported under the name with the
/// given bytes.
pub open spec fn spec_exports_memory(exports: Seq<ExportDesc>, name: Seq<u8>) -> bool {
    exists|i: int|
        0 <= i < exports.len() && #[trigger] exports[i].kind == EXPORT_KIND_MEMORY
            && exports[i].name@ == name
}

/// The message of the error raised when no execution environment could be
/// created for a new instance.
pub open spec fn exec_env_failure_message() -> Seq<char> {
    "failed to create execution environment"@
}

/// Turns the runtime's answer to an instantiation into the instance handle,
/// or [`Error::Instantiate`] carrying the runtime's diagnostic message.
pub fn check_instantiation<H>(inst: Option<H>, err: String) -> (r: Result<H, Error>)
    ensures
        match inst {
            Some(h) => r == Ok::<H, Error>(h),
            None => r == Err::<H, Error>(Error::Instantiate(err)),
        },
{
    match inst {
        Some(h) => Ok(h),
        None => Err(Error::Instantiate(err)),
    }
}

/// Turns the runtime's answer to creating an execution environment into the
/// environment handle, or [`Error::Instantiate`]; on failure the caller must
/// tear the fresh instance down again.
pub fn check_exec_env<E>(env: Option<E>) -> (r: Result<E, Error>)
    ensures
        match env {
            Some(e) => r == Ok::<E, Error>(e),
            None => r matches Err(Error::Instantiate(msg)) && msg@ == exec_env_failure_message(),
        },
{
    match env {
        Some(e) => Ok(e),
        None => Err(Error::Instantiate(String::from_str("failed to create execution environment"))),
    }
}

/// Resolves an exported function from the runtime's lookup by `name`, which
/// is `None` when no such export exists (or the name cannot be passed to C).
pub fn resolve_func<H>(name: &str, handle: Option<H>) -> (r: Result<H, Error>)
    ensures
        match handle {
            Some(h) => r == Ok::<H, Error>(h),
            None => r matches Err(Error::FuncNotFound(n)) && n@ == name@,
        },
{
    match handle {
        Some(h) => Ok(h),
        None => Err(Error::FuncNotFound(owned_name(name))),
    }
}

/// Resolves an exported global from the runtime's description of it: its
/// value-kind code and mutability flag, or `None` when no global is exported
/// under `name`.
///
/// Fails with [`Error::GlobalNotFound`] for a missing global and
/// [`Error::UnsupportedType`] for a content type the bindings do not model.
pub fn resolve_global(name: &str, export: Option<(u8, bool)>) -> (r: Result<Global, Error>)
    ensures
        match export {
            None => r matches Err(Error::GlobalNotFound(n)) && n@ == name@,
            Some((kind, is_mutable)) => match ValType::spec_from_valkind(kind) {
                None => r == Err::<Global, Error>(Error::UnsupportedType),
                Some(t) => r matches Ok(g) && g.spec_type().spec_content() == t
                    && (g.spec_type().spec_mutability() == crate::value::Mutability::Mutable) == is_mutable,
            },
        },
{
    match export {
        None => Err(Error::GlobalNotFound(owned_name(name))),
        Some((kind, is_mutable)) => Global::from_raw(kind, is_mutable),
    }
}

/// Whether two byte strings are equal.
fn bytes_eq(a: &[u8], b: &[u8]) -> (r: bool)
    ensures
        r == (a@ == b@),
{
    if a.len() != b.len() {
        return false;
    }
    let mut i: usize = 0;
    while i < a.len()
        invariant
            a@.len() == b@.len(),
            i <= a@.len(),
            forall|j: int| 0 <= j < i ==> a@[j] == b@[j],
        decreases a@.len() - i,
    {
        if a[i] != b[i] {
            return false;
        }
        i = i + 1;
    }
    assert(a@ =~= b@);
    true
}

/// Returns whether the module exports a memory named `name`. Export names
/// stay reliable even though WAMR rewrites the memory's page limits.
pub fn has_exported_memory(exports: &[ExportDesc], name: &str) -> (r: bool)
    ensures
        r == spec_exports_memory(exports@, name.spec_bytes()),
{
    let bytes = name.as_bytes();
    let mut i: usize = 0;
    while i < exports.len()
        invariant
            i <= exports@.len(),
            bytes@ == name.spec_bytes(),
            forall|j: int|
                0 <= j < i ==> !(#[trigger] exports@[j].kind == EXPORT_KIND_MEMORY
                    && exports@[j].name@ == bytes@),
        decreases exports@.len() - i,
    {
        let e = &exports[i];
        if e.kind == EXPORT_KIND_MEMORY && bytes_eq(e.name.as_slice(), bytes) {
            return true;
        }
        i = i + 1;
    }
    false
}

/// Resolves the exported linear memory named `name`, given the module's
/// export list, the runtime's lookup of the memory (`None` when it found
/// none) and the module's declared memory type.
///
/// Fails with [`Error::MemoryNotFound`] unless `name` is exported as a
/// memory, the runtime found it, and the module declares its limits.
/// (WAMR's lookup ignores the name when multi-memory is off, so the export
/// list is what validates it.)
pub fn resolve_memory<H>(
    name: &str,
    exports: &[ExportDesc],
    handle: Option<H>,
    declared: Option<MemoryType>,
) -> (r: Result<(H, Memory), Error>)
    ensures
        (spec_exports_memory(exports@, name.spec_bytes()) && handle is Some && declared is Some)
            ==> (r matches Ok((h, m)) && Some(h) == handle && Some(m.spec_type()) == declared),
        !(spec_exports_memory(exports@, name.spec_bytes()) && handle is Some && declared is Some)
            ==> (r matches Err(Error::MemoryNotFound(n)) && n@ == name@),
{
    if !has_exported_memory(exports, name) {
        return Err(Error::MemoryNotFound(owned_name(name)));
    }
    match handle {
        None => Err(Error::MemoryNotFound(owned_name(name))),
        Some(h) => match declared {
            None => Err(Error::MemoryNotFound(owned_name(name))),
            Some(ty) => Ok((h, Memory::new(ty))),
        },
    }
}

} // verus!
