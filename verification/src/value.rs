//! Wasm value and type representations, and their raw encodings in the WAMR
//! C API (value-kind codes, 64-bit argument slots, native signature strings).

use vstd::prelude::*;

use crate::error::Error;

verus! {

/// WAMR's `wasm_valkind_t` code for `i32`.
pub const WASM_I32: u8 = 0;

/// WAMR's `wasm_valkind_t` code for `i64`.
pub const WASM_I64: u8 = 1;

/// WAMR's `wasm_valkind_t` code for `f32`.
pub const WASM_F32: u8 = 2;

/// WAMR's `wasm_valkind_t` code for `f64`.
pub const WASM_F64: u8 = 3;

/// A Wasm value type.
///
/// The bindings expose the four numeric MVP types; reference-typed and vector
/// values are out of scope.
#[derive(Debug, Clone, Copy, PartialEq, Eq, Hash, Structural)]
pub enum ValType {
    /// The Wasm `i32` type.
    I32,
    /// The Wasm `i64` type.
    I64,
    /// The Wasm `f32` type.
    F32,
    /// The Wasm `f64` type.
    F64,
}

impl ValType {
    /// The character that stands for this type in a WAMR native signature.
    pub open spec fn spec_signature_char(self) -> u8 {
        match self {
            ValType::I32 => 0x69u8,  // 'i'
            ValType::I64 => 0x49u8,  // 'I'
            ValType::F32 => 0x66u8,  // 'f'
            ValType::F64 => 0x46u8,  // 'F'
        }
    }

    /// The WAMR value-kind code of this type.
    pub open spec fn spec_valkind(self) -> u8 {
        match self {
            ValType::I32 => WASM_I32,
            ValType::I64 => WASM_I64,
            ValType::F32 => WASM_F32,
            ValType::F64 => WASM_F64,
        }
    }

    /// The type that a WAMR value-kind code stands for, if it is numeric.
    pub open spec fn spec_from_valkind(kind: u8) -> Option<ValType> {
        if kind == WASM_I32 {
            Some(ValType::I32)
        } else if kind == WASM_I64 {
            Some(ValType::I64)
        } else if kind == WASM_F32 {
            Some(ValType::F32)
        } else if kind == WASM_F64 {
            Some(ValType::F64)
        } else {
            None
        }
    }

    /// The textual name of the type, as Wasm writes it.
    pub open spec fn spec_name(self) -> Seq<char> {
        match self {
            ValType::I32 => "i32"@,
            ValType::I64 => "i64"@,
            ValType::F32 => "f32"@,
            ValType::F64 => "f64"@,
        }
    }

    /// The number of bytes a global of this type occupies in instance
    /// storage.
    pub open spec fn spec_storage_bytes(self) -> usize {
        match self {
            ValType::I32 | ValType::F32 => 4,
            ValType::I64 | ValType::F64 => 8,
        }
    }

    /// The zero value of the type.
    pub open spec fn spec_default_value(self) -> Val {
        match self {
            ValType::I32 => Val::I32(0),
            ValType::I64 => Val::I64(0),
            ValType::F32 => Val::F32(0),
            ValType::F64 => Val::F64(0),
        }
    }

    /// The single byte used for this type in a WAMR native signature string.
    pub fn signature_char(self) -> (c: u8)
        ensures
            c == self.spec_signature_char(),
    {
        match self {
            ValType::I32 => 0x69u8,
            ValType::I64 => 0x49u8,
            ValType::F32 => 0x66u8,
            ValType::F64 => 0x46u8,
        }
    }

    /// The WAMR value-kind code of this type.
    pub fn valkind(self) -> (k: u8)
        ensures
            k == self.spec_valkind(),
    {
        match self {
            ValType::I32 => WASM_I32,
            ValType::I64 => WASM_I64,
            ValType::F32 => WASM_F32,
            ValType::F64 => WASM_F64,
        }
    }

    /// The number of bytes a global of this type occupies in instance
    /// storage: 4 for `i32`/`f32`, 8 for `i64`/`f64`.
    pub fn storage_bytes(self) -> (n: usize)
        ensures
            n == self.spec_storage_bytes(),
    {
        match self {
            ValType::I32 | ValType::F32 => 4,
            ValType::I64 | ValType::F64 => 8,
        }
    }

    /// The default (zero) [`Val`] for this type.
    pub fn default_value(self) -> (v: Val)
        ensures
            v == self.spec_default_value(),
            v.spec_ty() == self,
    {
        match self {
            ValType::I32 => Val::I32(0),
            ValType::I64 => Val::I64(0),
            ValType::F32 => Val::F32(0),
            ValType::F64 => Val::F64(0),
        }
    }

    /// Converts a raw WAMR value kind into a [`ValType`].
    ///
    /// Returns `None` for non-numeric kinds (`v128`, `funcref`, `externref`),
    /// which these bindings do not model.
    pub fn from_valkind(kind: u8) -> (t: Option<ValType>)
        ensures
            t == ValType::spec_from_valkind(kind),
    {
        if kind == WASM_I32 {
            Some(ValType::I32)
        } else if kind == WASM_I64 {
            Some(ValType::I64)
        } else if kind == WASM_F32 {
            Some(ValType::F32)
        } else if kind == WASM_F64 {
            Some(ValType::F64)
        } else {
            None
        }
    }

    /// The textual name of the type (`"i32"`, `"i64"`, `"f32"`, `"f64"`).
    pub fn name(self) -> (s: &'static str)
        ensures
            s@ == self.spec_name(),
    {
        match self {
            ValType::I32 => "i32",
            ValType::I64 => "i64",
            ValType::F32 => "f32",
            ValType::F64 => "f64",
        }
    }
}

/// The value-kind code of a type names that type again.
pub proof fn lemma_valkind_roundtrip(t: ValType)
    ensures
        ValType::spec_from_valkind(t.spec_valkind()) == Some(t),
{
}

/// A value kind that names a numeric type is that type's code, so distinct
/// numeric types have distinct codes.
pub proof fn lemma_from_valkind_inverse(kind: u8, t: ValType)
    requires
        ValType::spec_from_valkind(kind) == Some(t),
    ensures
        t.spec_valkind() == kind,
{
}

/// WAMR's value-kind codes (`wasm_valkind_t`): `i32` is 0, `i64` is 1, `f32`
/// is 2 and `f64` is 3, in both directions; every other code (`v128`,
/// `externref`, `funcref`) names no numeric type.
pub proof fn lemma_valkind_codes(kind: u8)
    ensures
        ValType::spec_from_valkind(0u8) == Some(ValType::I32),
        ValType::spec_from_valkind(1u8) == Some(ValType::I64),
        ValType::spec_from_valkind(2u8) == Some(ValType::F32),
        ValType::spec_from_valkind(3u8) == Some(ValType::F64),
        kind > 3 ==> ValType::spec_from_valkind(kind) is None,
        ValType::I32.spec_valkind() == 0u8,
        ValType::I64.spec_valkind() == 1u8,
        ValType::F32.spec_valkind() == 2u8,
        ValType::F64.spec_valkind() == 3u8,
{
}

/// The characters of WAMR's native signature strings: `'i'` for `i32`, `'I'`
/// for `i64`, `'f'` for `f32` and `'F'` for `f64`; distinct types get
/// distinct characters.
pub proof fn lemma_signature_char_table(a: ValType, b: ValType)
    ensures
        ValType::I32.spec_signature_char() == 'i' as u8,
        ValType::I64.spec_signature_char() == 'I' as u8,
        ValType::F32.spec_signature_char() == 'f' as u8,
        ValType::F64.spec_signature_char() == 'F' as u8,
        a.spec_signature_char() == b.spec_signature_char() ==> a == b,
{
}

/// A value the runtime returns is read at the type its kind code names; only
/// a code naming no numeric type is read as `f64`. In particular a value of
/// any type `t`, returned under `t`'s own code, is read as `t`.
pub proof fn lemma_returned_type_matches_kind(kind: u8, t: ValType)
    ensures
        ValType::spec_from_valkind(kind) == Some(t) ==> Val::spec_returned_type(kind) == t,
        ValType::spec_from_valkind(kind) is None ==> Val::spec_returned_type(kind) == ValType::F64,
        Val::spec_returned_type(t.spec_valkind()) == t,
        Val::spec_returned_type(2u8) == ValType::F32,
{
}

/// A function's parameter or result kind is reported as the numeric type it
/// names; only a code naming no numeric type is reported as `i32`. In
/// particular a signature read back from its own kind codes is unchanged.
pub proof fn lemma_reported_kind_matches(kind: u8, t: ValType, ts: Seq<ValType>)
    ensures
        ValType::spec_from_valkind(kind) == Some(t) ==> valtype_or_i32(kind) == t,
        ValType::spec_from_valkind(kind) is None ==> valtype_or_i32(kind) == ValType::I32,
        valtype_or_i32(2u8) == ValType::F32,
        ts.map_values(|x: ValType| x.spec_valkind()).map_values(|k: u8| valtype_or_i32(k)) == ts,
{
    assert(ts.map_values(|x: ValType| x.spec_valkind()).map_values(|k: u8| valtype_or_i32(k))
        =~= ts);
}

/// Every type's default value is zero of that type (its raw slot is all
/// zero bits), and a global of a 32-bit type takes 4 bytes of storage and one
/// of a 64-bit type 8.
pub proof fn lemma_defaults_and_widths(t: ValType)
    ensures
        t.spec_default_value().spec_ty() == t,
        t.spec_default_value().spec_raw_slot() == 0,
        ValType::I32.spec_storage_bytes() == 4,
        ValType::F32.spec_storage_bytes() == 4,
        ValType::I64.spec_storage_bytes() == 8,
        ValType::F64.spec_storage_bytes() == 8,
{
}

/// The two's-complement bit pattern of an `i32`.
pub open spec fn i32_bits(v: i32) -> u32 {
    if v >= 0 {
        v as u32
    } else {
        (v + 0x1_0000_0000) as u32
    }
}

/// The `i32` whose two's-complement bit pattern is `b`.
pub open spec fn i32_from_bits(b: u32) -> i32 {
    if b < 0x8000_0000 {
        b as i32
    } else {
        (b - 0x1_0000_0000) as i32
    }
}

/// The two's-complement bit pattern of an `i64`.
pub open spec fn i64_bits(v: i64) -> u64 {
    if v >= 0 {
        v as u64
    } else {
        (v + 0x1_0000_0000_0000_0000) as u64
    }
}

/// The `i64` whose two's-complement bit pattern is `b`.
pub open spec fn i64_from_bits(b: u64) -> i64 {
    if b < 0x8000_0000_0000_0000 {
        b as i64
    } else {
        (b - 0x1_0000_0000_0000_0000) as i64
    }
}

/// A typed Wasm value.
///
/// Floating-point values are carried as their IEEE-754 bit patterns: `F32`
/// holds the 32 bits of an `f32` and `F64` the 64 bits of an `f64`. The
/// bindings never compute with floats; they only move their bits between the
/// caller and the runtime.
#[derive(Debug, Clone, Copy, PartialEq, Eq, Structural)]
pub enum Val {
    /// A Wasm `i32` value.
    I32(i32),
    /// A Wasm `i64` value.
    I64(i64),
    /// A Wasm `f32` value, as its bit pattern.
    F32(u32),
    /// A Wasm `f64` value, as its bit pattern.
    F64(u64),
}

impl Val {
    /// The type of the value.
    pub open spec fn spec_ty(self) -> ValType {
        match self {
            Val::I32(_) => ValType::I32,
            Val::I64(_) => ValType::I64,
            Val::F32(_) => ValType::F32,
            Val::F64(_) => ValType::F64,
        }
    }

    /// The 64-bit raw argument slot that holds the value: its bit pattern,
    /// with `i32`/`f32` in the low 32 bits and the high bits clear.
    pub open spec fn spec_raw_slot(self) -> u64 {
        match self {
            Val::I32(v) => i32_bits(v) as u64,
            Val::I64(v) => i64_bits(v),
            Val::F32(b) => b as u64,
            Val::F64(b) => b,
        }
    }

    /// The value of type `ty` that a 64-bit raw argument slot holds; for the
    /// 32-bit types only the low 32 bits are read.
    pub open spec fn spec_from_raw_slot(ty: ValType, slot: u64) -> Val {
        match ty {
            ValType::I32 => Val::I32(i32_from_bits((slot % 0x1_0000_0000) as u32)),
            ValType::I64 => Val::I64(i64_from_bits(slot)),
            ValType::F32 => Val::F32((slot % 0x1_0000_0000) as u32),
            ValType::F64 => Val::F64(slot),
        }
    }

    /// Returns the [`ValType`] of this value.
    pub fn ty(self) -> (t: ValType)
        ensures
            t == self.spec_ty(),
    {
        match self {
            Val::I32(_) => ValType::I32,
            Val::I64(_) => ValType::I64,
            Val::F32(_) => ValType::F32,
            Val::F64(_) => ValType::F64,
        }
    }

    /// Encodes this value into a single 64-bit WAMR raw argument slot.
    ///
    /// WAMR's raw native calling convention stores every parameter in one
    /// `uint64` slot, with `i32`/`f32` occupying the low 32 bits.
    pub fn to_raw_slot(self) -> (slot: u64)
        ensures
            slot == self.spec_raw_slot(),
    {
        match self {
            Val::I32(v) => {
                let b: u32 = v as u32;
                assert(b == i32_bits(v)) by (bit_vector)
                    requires
                        b == v as u32,
                ;
                b as u64
            },
            Val::I64(v) => {
                let b: u64 = v as u64;
                assert(b == i64_bits(v)) by (bit_vector)
                    requires
                        b == v as u64,
                ;
                b
            },
            Val::F32(b) => b as u64,
            Val::F64(b) => b,
        }
    }

    /// Decodes a value of type `ty` from a single 64-bit WAMR raw argument slot.
    pub fn from_raw_slot(ty: ValType, slot: u64) -> (v: Val)
        ensures
            v == Val::spec_from_raw_slot(ty, slot),
            v.spec_ty() == ty,
    {
        match ty {
            ValType::I32 => {
                let low: u32 = slot as u32;
                assert(low == (slot % 0x1_0000_0000) as u32) by (bit_vector)
                    requires
                        low == slot as u32,
                ;
                let v: i32 = low as i32;
                assert(v == i32_from_bits(low)) by (bit_vector)
                    requires
                        v == low as i32,
                ;
                Val::I32(v)
            },
            ValType::I64 => {
                let v: i64 = slot as i64;
                assert(v == i64_from_bits(slot)) by (bit_vector)
                    requires
                        v == slot as i64,
                ;
                Val::I64(v)
            },
            ValType::F32 => {
                let low: u32 = slot as u32;
                assert(low == (slot % 0x1_0000_0000) as u32) by (bit_vector)
                    requires
                        low == slot as u32,
                ;
                Val::F32(low)
            },
            ValType::F64 => Val::F64(slot),
        }
    }

    /// The type a value the runtime hands back is read at, given the value's
    /// kind code: a kind other than `i32`, `i64` or `f32` is read as `f64`.
    pub open spec fn spec_returned_type(kind: u8) -> ValType {
        match ValType::spec_from_valkind(kind) {
            Some(t) => t,
            None => ValType::F64,
        }
    }

    /// The type at which a value the runtime returned in a `wasm_val_t` of
    /// kind `kind` is read.
    pub fn returned_type(kind: u8) -> (t: ValType)
        ensures
            t == Val::spec_returned_type(kind),
    {
        match ValType::from_valkind(kind) {
            Some(t) => t,
            None => ValType::F64,
        }
    }
}

/// Decoding a value's raw slot at the value's own type gives the value back.
pub proof fn lemma_raw_slot_roundtrip(v: Val)
    ensures
        Val::spec_from_raw_slot(v.spec_ty(), v.spec_raw_slot()) == v,
{
    match v {
        Val::I32(x) => {
            assert(i32_from_bits(i32_bits(x)) == x);
        },
        Val::I64(x) => {
            assert(i64_from_bits(i64_bits(x)) == x);
        },
        _ => {},
    }
}

/// A value of a 4-byte type fits in the low 32 bits of its raw slot, so
/// storing those 4 bytes loses nothing.
pub proof fn lemma_narrow_slot_fits(v: Val)
    requires
        v.spec_ty().spec_storage_bytes() == 4,
    ensures
        v.spec_raw_slot() < 0x1_0000_0000,
{
}

/// Whether a Wasm global may be mutated after instantiation.
#[derive(Debug, Clone, Copy, PartialEq, Eq, Hash, Structural)]
pub enum Mutability {
    /// An immutable (`const`) global.
    Const,
    /// A mutable global.
    Mutable,
}

/// The type of a Wasm global: its content type and mutability.
#[derive(Debug, Clone, Copy, PartialEq, Eq, Structural)]
pub struct GlobalType {
    content: ValType,
    mutability: Mutability,
}

impl GlobalType {
    /// The value type stored in the global.
    pub closed spec fn spec_content(self) -> ValType {
        self.content
    }

    /// The mutability of the global.
    pub closed spec fn spec_mutability(self) -> Mutability {
        self.mutability
    }

    /// Creates a new [`GlobalType`] from its content type and mutability.
    pub fn new(content: ValType, mutability: Mutability) -> (g: GlobalType)
        ensures
            g.spec_content() == content,
            g.spec_mutability() == mutability,
    {
        GlobalType { content, mutability }
    }

    /// Returns the value type stored in the global.
    pub fn content(&self) -> (t: ValType)
        ensures
            t == self.spec_content(),
    {
        self.content
    }

    /// Returns the mutability of the global.
    pub fn mutable(&self) -> (m: Mutability)
        ensures
            m == self.spec_mutability(),
    {
        self.mutability
    }

    /// Builds the type of an exported global from WAMR's description of it:
    /// its value-kind code and its mutability flag.
    ///
    /// Returns [`Error::UnsupportedType`] when the content kind is not one of
    /// the four numeric types.
    pub fn from_raw(kind: u8, is_mutable: bool) -> (r: Result<GlobalType, Error>)
        ensures
            ValType::spec_from_valkind(kind) is None <==> r == Err::<GlobalType, Error>(
                Error::UnsupportedType,
            ),
            ValType::spec_from_valkind(kind) is Some ==> r is Ok,
            r matches Ok(g) ==> {
                &&& Some(g.spec_content()) == ValType::spec_from_valkind(kind)
                &&& g.spec_mutability() == (if is_mutable {
                    Mutability::Mutable
                } else {
                    Mutability::Const
                })
            },
    {
        match ValType::from_valkind(kind) {
            None => Err(Error::UnsupportedType),
            Some(content) => {
                let mutability = if is_mutable {
                    Mutability::Mutable
                } else {
                    Mutability::Const
                };
                Ok(GlobalType::new(content, mutability))
            },
        }
    }
}

/// The type of a Wasm linear memory: its page limits.
///
/// Page counts are in units of Wasm pages (64 KiB each), matching the module's
/// declared limits rather than the byte length of the live data.
#[derive(Debug, Clone, Copy, PartialEq, Eq, Structural)]
pub struct MemoryType {
    minimum: u64,
    maximum: Option<u64>,
}

impl View for MemoryType {
    type V = (u64, Option<u64>);

    /// The minimum and the optional maximum number of pages.
    closed spec fn view(&self) -> (u64, Option<u64>) {
        (self.minimum, self.maximum)
    }
}

impl MemoryType {
    /// The minimum number of pages.
    pub open spec fn spec_minimum(self) -> u64 {
        self@.0
    }

    /// The optional maximum number of pages.
    pub open spec fn spec_maximum(self) -> Option<u64> {
        self@.1
    }

    /// Creates a new [`MemoryType`] from its minimum and optional maximum page
    /// counts.
    pub fn new(minimum: u64, maximum: Option<u64>) -> (m: MemoryType)
        ensures
            m.spec_minimum() == minimum,
            m.spec_maximum() == maximum,
    {
        MemoryType { minimum, maximum }
    }

    /// Returns the minimum number of Wasm pages.
    pub fn minimum(&self) -> (n: u64)
        ensures
            n == self.spec_minimum(),
    {
        self.minimum
    }

    /// Returns the optional maximum number of Wasm pages.
    pub fn maximum(&self) -> (n: Option<u64>)
        ensures
            n == self.spec_maximum(),
    {
        self.maximum
    }
}

/// The type a WAMR value-kind code is reported as in a function signature:
/// the numeric type it names, or `i32` for a kind the bindings do not model.
pub open spec fn valtype_or_i32(kind: u8) -> ValType {
    match ValType::spec_from_valkind(kind) {
        Some(t) => t,
        None => ValType::I32,
    }
}

/// The signature characters of a sequence of types.
pub open spec fn signature_chars(ts: Seq<ValType>) -> Seq<u8> {
    ts.map_values(|t: ValType| t.spec_signature_char())
}

/// The signature of a Wasm function: its parameter and result types.
#[derive(Debug, Clone, PartialEq, Eq)]
pub struct FuncType {
    params: Vec<ValType>,
    results: Vec<ValType>,
}

impl View for FuncType {
    type V = (Seq<ValType>, Seq<ValType>);

    /// The parameter types and the result types.
    closed spec fn view(&self) -> (Seq<ValType>, Seq<ValType>) {
        (self.params@, self.results@)
    }
}

impl FuncType {
    /// Creates a new [`FuncType`] from its parameter and result types.
    pub fn new(params: Vec<ValType>, results: Vec<ValType>) -> (f: FuncType)
        ensures
            f@ == (params@, results@),
    {
        FuncType { params, results }
    }

    /// Returns the parameter types.
    pub fn params(&self) -> (p: &[ValType])
        ensures
            p@ == self@.0,
    {
        self.params.as_slice()
    }

    /// Returns the result types.
    pub fn results(&self) -> (r: &[ValType])
        ensures
            r@ == self@.1,
    {
        self.results.as_slice()
    }

    /// The WAMR native signature string of this type, e.g. `"(ii)i"`, without
    /// its terminating NUL.
    pub open spec fn spec_signature(self) -> Seq<u8> {
        seq![0x28u8] + signature_chars(self@.0) + seq![0x29u8] + signature_chars(self@.1)
    }

    /// Builds the WAMR native signature string for this type, e.g. `"(ii)i"`.
    ///
    /// WAMR only checks the arity and shape of this string at registration; the
    /// raw calling convention takes the argument layout from the module's own
    /// import type.
    pub fn signature_bytes(&self) -> (s: Vec<u8>)
        ensures
            s@ == self.spec_signature(),
    {
        let mut s: Vec<u8> = Vec::new();
        s.push(0x28u8);
        let mut i: usize = 0;
        while i < self.params.len()
            invariant
                i <= self.params@.len(),
                s@ == seq![0x28u8] + signature_chars(self.params@.take(i as int)),
            decreases self.params@.len() - i,
        {
            s.push(self.params[i].signature_char());
            assert(self.params@.take(i + 1) == self.params@.take(i as int).push(self.params@[i as int]));
            i = i + 1;
        }
        assert(self.params@.take(i as int) == self.params@);
        s.push(0x29u8);
        let ghost prefix = s@;
        let mut j: usize = 0;
        while j < self.results.len()
            invariant
                j <= self.results@.len(),
                s@ == prefix + signature_chars(self.results@.take(j as int)),
            decreases self.results@.len() - j,
        {
            s.push(self.results[j].signature_char());
            assert(self.results@.take(j + 1) == self.results@.take(j as int).push(self.results@[j as int]));
            j = j + 1;
        }
        assert(self.results@.take(j as int) == self.results@);
        s
    }

    /// Builds the type of an exported function from the value-kind codes WAMR
    /// reports for its parameters and results.
    ///
    /// Kinds the four-type [`ValType`] does not model are reported as
    /// [`ValType::I32`].
    pub fn from_valkinds(params: &[u8], results: &[u8]) -> (f: FuncType)
        ensures
            f@.0 == params@.map_values(|k: u8| valtype_or_i32(k)),
            f@.1 == results@.map_values(|k: u8| valtype_or_i32(k)),
    {
        FuncType { params: valtypes_or_i32(params), results: valtypes_or_i32(results) }
    }

    /// Decodes one value per parameter from WAMR's raw argument slots: slot
    /// `i` holds parameter `i`.
    pub fn decode_params(&self, slots: &[u64]) -> (vals: Vec<Val>)
        requires
            slots@.len() >= self@.0.len(),
        ensures
            vals@.len() == self@.0.len(),
            forall|i: int|
                0 <= i < vals@.len() ==> #[trigger] vals@[i] == Val::spec_from_raw_slot(
                    self@.0[i],
                    slots@[i],
                ),
    {
        let mut vals: Vec<Val> = Vec::new();
        let mut i: usize = 0;
        while i < self.params.len()
            invariant
                i <= self.params@.len(),
                slots@.len() >= self.params@.len(),
                vals@.len() == i,
                forall|k: int|
                    0 <= k < i ==> #[trigger] vals@[k] == Val::spec_from_raw_slot(
                        self.params@[k],
                        slots@[k],
                    ),
            decreases self.params@.len() - i,
        {
            vals.push(Val::from_raw_slot(self.params[i], slots[i]));
            i = i + 1;
        }
        vals
    }

    /// The default (zero) value of each result type, in order.
    pub fn default_results(&self) -> (vals: Vec<Val>)
        ensures
            vals@ == self@.1.map_values(|t: ValType| t.spec_default_value()),
    {
        let mut vals: Vec<Val> = Vec::new();
        let mut i: usize = 0;
        while i < self.results.len()
            invariant
                i <= self.results@.len(),
                vals@ == self.results@.take(i as int).map_values(
                    |t: ValType| t.spec_default_value(),
                ),
            decreases self.results@.len() - i,
        {
            vals.push(self.results[i].default_value());
            assert(self.results@.take(i + 1) == self.results@.take(i as int).push(
                self.results@[i as int],
            ));
            i = i + 1;
        }
        assert(self.results@.take(i as int) == self.results@);
        vals
    }
}

/// Maps each value-kind code to its type, reporting unmodelled kinds as `i32`.
fn valtypes_or_i32(kinds: &[u8]) -> (ts: Vec<ValType>)
    ensures
        ts@ == kinds@.map_values(|k: u8| valtype_or_i32(k)),
{
    let mut ts: Vec<ValType> = Vec::new();
    let mut i: usize = 0;
    while i < kinds.len()
        invariant
            i <= kinds@.len(),
            ts@ == kinds@.take(i as int).map_values(|k: u8| valtype_or_i32(k)),
        decreases kinds@.len() - i,
    {
        let t = match ValType::from_valkind(kinds[i]) {
            Some(t) => t,
            None => ValType::I32,
        };
        ts.push(t);
        assert(kinds@.take(i + 1) == kinds@.take(i as int).push(kinds@[i as int]));
        i = i + 1;
    }
    assert(kinds@.take(i as int) == kinds@);
    ts
}

/// A native signature string never holds a NUL byte, so it can always be
/// handed to WAMR as a C string; it is two bytes longer than the parameter
/// and result lists together.
pub proof fn lemma_signature_has_no_nul(f: FuncType)
    ensures
        !f.spec_signature().contains(0u8),
        f.spec_signature().len() == f@.0.len() + f@.1.len() + 2,
{
    let s = f.spec_signature();
    assert forall|i: int| 0 <= i < s.len() implies s[i] != 0u8 by {
        let p = signature_chars(f@.0);
        let r = signature_chars(f@.1);
        if 1 <= i < 1 + p.len() {
            assert(s[i] == p[i - 1]);
        } else if 2 + p.len() <= i {
            assert(s[i] == r[i - 2 - p.len()]);
        }
    }
}

/// Each decoded parameter has the type its signature declares, and each
/// default result has its declared result type.
pub proof fn lemma_decoded_types_match(f: FuncType, slots: Seq<u64>)
    requires
        slots.len() >= f@.0.len(),
    ensures
        forall|i: int|
            0 <= i < f@.0.len() ==> (#[trigger] Val::spec_from_raw_slot(f@.0[i], slots[i])).spec_ty()
                == f@.0[i],
        forall|i: int|
            0 <= i < f@.1.len() ==> (#[trigger] f@.1[i].spec_default_value()).spec_ty() == f@.1[i],
{
}

} // verus!
