//! Exported Wasm globals: their types, and the checks and encodings that
//! reads and writes of their storage go through.

use vstd::prelude::*;

use crate::error::Error;
use crate::value::{GlobalType, Mutability, Val, ValType};

verus! {

/// An exported global, as the bindings see it: its content type and its
/// mutability. Its storage lives in the instance; reads and writes move the
/// value's bit pattern, held as a 64-bit slot whose low 32 bits carry the
/// 32-bit types.
#[derive(Debug, Clone, Copy)]
pub struct Global {
    ty: GlobalType,
}

/// Whether a write of `v` to a global of type `ty` is refused, and with which
/// error: a `const` global refuses every write, a mutable one a value of
/// another type.
pub open spec fn spec_set_error(ty: GlobalType, v: Val) -> Option<Error> {
    if ty.spec_mutability() == Mutability::Const {
        Some(Error::GlobalImmutable)
    } else if v.spec_ty() != ty.spec_content() {
        Some(Error::TypeMismatch { expected: ty.spec_content(), provided: v.spec_ty() })
    } else {
        None
    }
}

impl Global {
    /// The type of the global.
    pub closed spec fn spec_type(&self) -> GlobalType {
        self.ty
    }

    /// A global of the given content type and mutability.
    pub fn new(content: ValType, mutability: Mutability) -> (g: Global)
        ensures
            g.spec_type().spec_content() == content,
            g.spec_type().spec_mutability() == mutability,
    {
        Global { ty: GlobalType::new(content, mutability) }
    }

    /// The global described by WAMR's value-kind code and mutability flag.
    ///
    /// Fails with [`Error::UnsupportedType`] when the content kind is not one
    /// of the four numeric types.
    pub fn from_raw(kind: u8, is_mutable: bool) -> (r: Result<Global, Error>)
        ensures
            ValType::spec_from_valkind(kind) is None ==> r == Err::<Global, Error>(
                Error::UnsupportedType,
            ),
            ValType::spec_from_valkind(kind) matches Some(t) ==> (r matches Ok(g)
                && g.spec_type().spec_content() == t && g.spec_type().spec_mutability() == (
            if is_mutable {
                Mutability::Mutable
            } else {
                Mutability::Const
            })),
    {
        match GlobalType::from_raw(kind, is_mutable) {
            Ok(ty) => Ok(Global { ty }),
            Err(e) => Err(e),
        }
    }

    /// Returns the [`GlobalType`] (content type and mutability) of this global.
    pub fn ty(&self) -> (t: GlobalType)
        ensures
            t == self.spec_type(),
    {
        self.ty
    }

    /// The number of bytes the global occupies in instance storage: reads and
    /// writes move exactly that many low-order bytes of the bit pattern.
    pub fn storage_bytes(&self) -> (n: usize)
        ensures
            n == self.spec_type().spec_content().spec_storage_bytes(),
    {
        self.ty.content().storage_bytes()
    }

    /// The value the global's storage holds, given the storage's bit pattern.
    pub fn get(&self, stored: u64) -> (v: Val)
        ensures
            v == Val::spec_from_raw_slot(self.spec_type().spec_content(), stored),
            v.spec_ty() == self.spec_type().spec_content(),
    {
        Val::from_raw_slot(self.ty.content(), stored)
    }

    /// Checks a write of `new_val` and returns the bit pattern to store.
    ///
    /// Returns [`Error::GlobalImmutable`] if the global is `const`, or
    /// [`Error::TypeMismatch`] if `new_val`'s type differs from the global's
    /// content type; the storage must then be left as it is.
    pub fn set(&self, new_val: Val) -> (r: Result<u64, Error>)
        ensures
            match spec_set_error(self.spec_type(), new_val) {
                Some(e) => r == Err::<u64, Error>(e),
                None => r == Ok::<u64, Error>(new_val.spec_raw_slot()),
            },
            r is Ok && self.spec_type().spec_content().spec_storage_bytes() == 4 ==> r->Ok_0
                < 0x1_0000_0000,
    {
        if self.ty.mutable() == Mutability::Const {
            return Err(Error::GlobalImmutable);
        }
        let provided = new_val.ty();
        if provided != self.ty.content() {
            return Err(Error::TypeMismatch { expected: self.ty.content(), provided });
        }
        proof {
            if provided.spec_storage_bytes() == 4 {
                crate::value::lemma_narrow_slot_fits(new_val);
            }
        }
        Ok(new_val.to_raw_slot())
    }
}

/// A read after an accepted write gives back the written value.
pub proof fn lemma_get_after_set(g: Global, v: Val)
    requires
        spec_set_error(g.spec_type(), v) is None,
    ensures
        Val::spec_from_raw_slot(g.spec_type().spec_content(), v.spec_raw_slot()) == v,
{
    crate::value::lemma_raw_slot_roundtrip(v);
}

/// A write is accepted exactly when the global is mutable and the value has
/// the global's content type.
pub proof fn lemma_set_accepted(ty: GlobalType, v: Val)
    ensures
        spec_set_error(ty, v) is None <==> (ty.spec_mutability() == Mutability::Mutable
            && v.spec_ty() == ty.spec_content()),
{
}

} // verus!
