//! The decisions behind defining host functions: validating the names WAMR
//! registers them under, building their native signature, judging the
//! registration, and marshalling values through WAMR's raw calling
//! convention (one 64-bit slot per argument, a single result written back to
//! slot 0).

use vstd::prelude::*;
use vstd::string::StringSliceAdditionalSpecFns;

use crate::error::{interior_nul, interior_nul_message, Error};
use crate::util::has_interior_nul;
use crate::value::{FuncType, Val};

verus! {

/// The message of the error raised when WAMR refuses to register a host
/// function.
pub open spec fn registration_failure_message() -> Seq<char> {
    "failed to register host function with WAMR"@
}

/// Validates the module and function names of a host function and builds the
/// native signature it is registered with.
///
/// Fails with [`Error::Instantiate`] reporting `"module name contains an
/// interior NUL byte"` when the module name holds a NUL byte, and likewise
/// for the function name; the module name is checked first.
pub fn prepare_host_func(module: &str, name: &str, ty: &FuncType) -> (r: Result<Vec<u8>, Error>)
    ensures
        module.spec_bytes().contains(0u8) ==> (r matches Err(Error::Instantiate(msg)) && msg@
            == interior_nul_message("module name"@)),
        !module.spec_bytes().contains(0u8) && name.spec_bytes().contains(0u8) ==> (r matches Err(
            Error::Instantiate(msg),
        ) && msg@ == interior_nul_message("function name"@)),
        !module.spec_bytes().contains(0u8) && !name.spec_bytes().contains(0u8) ==> (r matches Ok(
            sig,
        ) && sig@ == ty.spec_signature()),
{
    if has_interior_nul(module) {
        return Err(interior_nul("module name"));
    }
    if has_interior_nul(name) {
        return Err(interior_nul("function name"));
    }
    Ok(ty.signature_bytes())
}

/// Judges WAMR's answer to registering a host function.
pub fn check_registration(ok: bool) -> (r: Result<(), Error>)
    ensures
        ok ==> r is Ok,
        !ok ==> (r matches Err(Error::Instantiate(msg)) && msg@ == registration_failure_message()),
{
    if ok {
        Ok(())
    } else {
        Err(Error::Instantiate(String::from_str("failed to register host function with WAMR")))
    }
}

/// The arguments a host function of type `ty` receives, decoded from WAMR's
/// raw argument slots.
pub fn host_params(ty: &FuncType, slots: &[u64]) -> (vals: Vec<Val>)
    requires
        slots@.len() >= ty@.0.len(),
    ensures
        vals@.len() == ty@.0.len(),
        forall|i: int|
            0 <= i < vals@.len() ==> #[trigger] vals@[i] == Val::spec_from_raw_slot(
                ty@.0[i],
                slots@[i],
            ),
{
    ty.decode_params(slots)
}

/// The raw slot a host function's first result is written back to, if it
/// has one (the raw convention carries at most one result).
pub fn host_result_slot(results: &[Val]) -> (slot: Option<u64>)
    ensures
        results@.len() == 0 ==> slot is None,
        results@.len() > 0 ==> slot == Some(results@[0].spec_raw_slot()),
{
    if results.len() == 0 {
        None
    } else {
        Some(results[0].to_raw_slot())
    }
}

/// A host function's result goes back to Wasm intact: the slot written back
/// decodes, at the declared result type, to the value the host produced.
pub proof fn lemma_host_result_roundtrip(ty: FuncType, results: Seq<Val>)
    requires
        results.len() > 0,
        ty@.1.len() > 0,
        results[0].spec_ty() == ty@.1[0],
    ensures
        Val::spec_from_raw_slot(ty@.1[0], results[0].spec_raw_slot()) == results[0],
{
    crate::value::lemma_raw_slot_roundtrip(results[0]);
}

} // verus!
