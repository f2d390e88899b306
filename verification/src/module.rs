//! The [`Module`]: a loaded (but not yet instantiated) Wasm module, and the
//! parser that recovers its declared memory limits from the binary.

use vstd::prelude::*;

use crate::engine::Engine;
use crate::error::Error;
use crate::leb::{
    leb_encode, leb_len_from, lemma_encode_small, lemma_read_encoded_at, read_leb_u32,
    spec_read_leb_u32,
};
use crate::value::MemoryType;

verus! {

/// The id of the memory section in the Wasm binary format.
pub const MEMORY_SECTION_ID: u8 = 5;

/// Whether the bytes start with the Wasm preamble: the magic `\0asm` and a
/// four-byte version.
pub open spec fn has_preamble(bytes: Seq<u8>) -> bool {
    &&& bytes.len() >= 8
    &&& bytes[0] == 0x00u8
    &&& bytes[1] == 0x61u8
    &&& bytes[2] == 0x73u8
    &&& bytes[3] == 0x6du8
}

/// A LEB128 `u32` read at `p` that must end within a payload ending at `end`.
pub open spec fn spec_read_within(bytes: Seq<u8>, p: int, end: int) -> Option<(u32, int)> {
    match spec_read_leb_u32(bytes, p) {
        Some((v, q)) => if q <= end {
            Some((v, q))
        } else {
            None
        },
        None => None,
    }
}

/// The limits of the first memory declared by a memory-section payload that
/// occupies the bytes from `p` up to `end`: the entry count (which must not
/// be zero), then a flags byte, the minimum, and the maximum exactly when the
/// low flag bit is set. Every field must lie inside the payload.
pub open spec fn spec_memory_entry(bytes: Seq<u8>, p: int, end: int) -> Option<(u64, Option<u64>)> {
    match spec_read_within(bytes, p, end) {
        None => None,
        Some((count, p1)) => if count == 0 {
            None
        } else {
            match spec_read_within(bytes, p1, end) {
                None => None,
                Some((flags, p2)) => match spec_read_within(bytes, p2, end) {
                    None => None,
                    Some((minimum, p3)) => if flags % 2 == 1 {
                        match spec_read_within(bytes, p3, end) {
                            None => None,
                            Some((maximum, _)) => Some((minimum as u64, Some(maximum as u64))),
                        }
                    } else {
                        Some((minimum as u64, None))
                    },
                },
            }
        },
    }
}

/// A LEB128 read that succeeds ends past its start.
pub proof fn lemma_leb_advances(buf: Seq<u8>, pos: int, k: nat)
    ensures
        leb_len_from(buf, pos, k) matches Some(n) ==> n >= k + 1,
    decreases 5 - k,
{
    if k < 5 && pos + k < buf.len() && buf[pos + k] >= 0x80 {
        lemma_leb_advances(buf, pos, k + 1);
    }
}

/// The memory limits found by walking the sections that start at `pos`: each
/// section is an id byte and a LEB128 payload size followed by the payload;
/// the walk stops at the first memory section, and fails on a truncated
/// header or a payload that runs past the end.
pub open spec fn spec_sections_memory(bytes: Seq<u8>, pos: int) -> Option<(u64, Option<u64>)>
    decreases bytes.len() - pos,
{
    if pos < 0 || pos >= bytes.len() {
        None
    } else {
        match spec_read_leb_u32(bytes, pos + 1) {
            None => None,
            Some((size, p)) => {
                proof {
                    lemma_leb_advances(bytes, pos + 1, 0);
                }
                if p + size > bytes.len() {
                    None
                } else if bytes[pos] == MEMORY_SECTION_ID {
                    spec_memory_entry(bytes, p, p + size)
                } else {
                    spec_sections_memory(bytes, p + size)
                }
            },
        }
    }
}

/// The declared limits of the linear memory of a binary module, if it has the
/// Wasm preamble and declares one.
pub open spec fn spec_parse_memory_type(bytes: Seq<u8>) -> Option<(u64, Option<u64>)> {
    if has_preamble(bytes) {
        spec_sections_memory(bytes, 8)
    } else {
        None
    }
}

/// The limits entry of a memory: a flags byte (bit 0 set when a maximum
/// follows), the minimum, and the maximum if any, each in shortest LEB128.
pub open spec fn limits_bytes(minimum: u32, maximum: Option<u32>) -> Seq<u8> {
    match maximum {
        Some(m) => seq![1u8] + leb_encode(minimum as nat) + leb_encode(m as nat),
        None => seq![0u8] + leb_encode(minimum as nat),
    }
}

/// A memory section declaring one memory with the given limits: the section
/// id, the payload size, then the payload (an entry count of one and the
/// limits).
pub open spec fn memory_section(minimum: u32, maximum: Option<u32>) -> Seq<u8> {
    let payload = seq![1u8] + limits_bytes(minimum, maximum);
    seq![MEMORY_SECTION_ID, payload.len() as u8] + payload
}

/// The memory limits as the parser reports them.
pub open spec fn declared_limits(minimum: u32, maximum: Option<u32>) -> (u64, Option<u64>) {
    (
        minimum as u64,
        match maximum {
            Some(m) => Some(m as u64),
            None => None,
        },
    )
}

/// The Wasm binary format numbers the memory section 5, and a module starts
/// with the magic bytes `\0asm`.
pub proof fn lemma_format_constants(bytes: Seq<u8>)
    ensures
        MEMORY_SECTION_ID == 5u8,
        has_preamble(bytes) <==> (bytes.len() >= 8 && bytes[0] == 0u8 && bytes[1] == 'a' as u8
            && bytes[2] == 's' as u8 && bytes[3] == 'm' as u8),
{
}

/// A piece of a buffer known to equal `sec` has, at each sub-range, the
/// matching sub-range of `sec`.
proof fn lemma_subrange_of_placed(bytes: Seq<u8>, pos: int, sec: Seq<u8>, a: int, b: int)
    requires
        0 <= pos,
        pos + sec.len() <= bytes.len(),
        bytes.subrange(pos, pos + sec.len()) == sec,
        0 <= a <= b <= sec.len(),
    ensures
        bytes.subrange(pos + a, pos + b) == sec.subrange(a, b),
{
    assert forall|i: int| 0 <= i < b - a implies bytes.subrange(pos + a, pos + b)[i] == sec.subrange(
        a,
        b,
    )[i] by {
        assert(bytes.subrange(pos, pos + sec.len())[a + i] == sec[a + i]);
    }
    assert(bytes.subrange(pos + a, pos + b) =~= sec.subrange(a, b));
}

/// Wherever a memory section declaring one memory stands in the section
/// sequence, the walk from there reports exactly its limits.
proof fn lemma_memory_section_at(bytes: Seq<u8>, pos: int, minimum: u32, maximum: Option<u32>)
    requires
        0 <= pos,
        pos + memory_section(minimum, maximum).len() <= bytes.len(),
        bytes.subrange(pos, pos + memory_section(minimum, maximum).len()) == memory_section(
            minimum,
            maximum,
        ),
    ensures
        spec_sections_memory(bytes, pos) == Some(declared_limits(minimum, maximum)),
{
    let lim = limits_bytes(minimum, maximum);
    let payload = seq![1u8] + lim;
    let sec = memory_section(minimum, maximum);
    let emin = leb_encode(minimum as nat);
    // Both encodings are at most five bytes, so the payload is short.
    let probe_min = emin + seq![0u8];
    assert(probe_min.subrange(0, emin.len() as int) =~= emin);
    lemma_read_encoded_at(minimum, probe_min, 0);
    match maximum {
        Some(m) => {
            let emax = leb_encode(m as nat);
            let probe_max = emax + seq![0u8];
            assert(probe_max.subrange(0, emax.len() as int) =~= emax);
            lemma_read_encoded_at(m, probe_max, 0);
        },
        None => {},
    }
    assert(payload.len() <= 12);
    let plen = payload.len() as u8;
    assert(sec =~= seq![MEMORY_SECTION_ID, plen] + payload);
    assert(bytes.subrange(pos, pos + sec.len())[0] == MEMORY_SECTION_ID);
    assert(bytes[pos] == MEMORY_SECTION_ID);
    // Payload size at pos + 1.
    lemma_encode_small(plen as nat);
    lemma_subrange_of_placed(bytes, pos, sec, 1, 2);
    assert(sec.subrange(1, 2) =~= leb_encode(plen as nat));
    lemma_read_encoded_at(plen as u32, bytes, pos + 1);
    // Entry count at pos + 2.
    lemma_encode_small(1);
    lemma_subrange_of_placed(bytes, pos, sec, 2, 3);
    assert(sec.subrange(2, 3) =~= leb_encode(1));
    lemma_read_encoded_at(1u32, bytes, pos + 2);
    // Flags at pos + 3, minimum from pos + 4.
    let flags: u32 = if maximum is Some { 1 } else { 0 };
    lemma_encode_small(flags as nat);
    lemma_subrange_of_placed(bytes, pos, sec, 3, 4);
    assert(sec.subrange(3, 4) =~= leb_encode(flags as nat));
    lemma_read_encoded_at(flags, bytes, pos + 3);
    lemma_subrange_of_placed(bytes, pos, sec, 4, 4 + emin.len() as int);
    assert(sec.subrange(4, 4 + emin.len() as int) =~= emin);
    lemma_read_encoded_at(minimum, bytes, pos + 4);
    match maximum {
        Some(m) => {
            let emax = leb_encode(m as nat);
            let at: int = 4 + emin.len() as int;
            lemma_subrange_of_placed(bytes, pos, sec, at, at + emax.len() as int);
            assert(sec.subrange(at, at + emax.len() as int) =~= emax);
            lemma_read_encoded_at(m, bytes, pos + at);
        },
        None => {},
    }
}

/// A module whose first section declares a memory reports exactly the
/// declared limits, whatever follows.
pub proof fn lemma_parse_declared_memory(
    preamble: Seq<u8>,
    minimum: u32,
    maximum: Option<u32>,
    rest: Seq<u8>,
)
    requires
        preamble.len() == 8,
        has_preamble(preamble),
    ensures
        spec_parse_memory_type(preamble + memory_section(minimum, maximum) + rest) == Some(
            declared_limits(minimum, maximum),
        ),
{
    let sec = memory_section(minimum, maximum);
    let bytes = preamble + sec + rest;
    assert(bytes.subrange(0, 8) =~= preamble);
    assert(has_preamble(bytes));
    assert(bytes.subrange(8, 8 + sec.len() as int) =~= sec);
    lemma_memory_section_at(bytes, 8, minimum, maximum);
}

/// A section of any other kind: its id, its payload size in shortest
/// LEB128 (of any length), and its payload.
pub open spec fn section_bytes(id: u8, payload: Seq<u8>) -> Seq<u8> {
    seq![id] + leb_encode(payload.len()) + payload
}

/// A section of another kind before the memory section is skipped whole,
/// however many bytes its size takes: the module still reports exactly the
/// declared memory limits.
pub proof fn lemma_parse_skips_other_section(
    preamble: Seq<u8>,
    id: u8,
    payload: Seq<u8>,
    minimum: u32,
    maximum: Option<u32>,
    rest: Seq<u8>,
)
    requires
        preamble.len() == 8,
        has_preamble(preamble),
        id != MEMORY_SECTION_ID,
        payload.len() < 0x1_0000_0000,
    ensures
        spec_parse_memory_type(
            preamble + section_bytes(id, payload) + memory_section(minimum, maximum) + rest,
        ) == Some(declared_limits(minimum, maximum)),
{
    let other = section_bytes(id, payload);
    let sec = memory_section(minimum, maximum);
    let bytes = preamble + other + sec + rest;
    let plen = payload.len() as u32;
    let esize = leb_encode(plen as nat);
    assert(bytes.subrange(0, 8) =~= preamble);
    assert(has_preamble(bytes));
    assert(bytes[8] == id);
    assert(bytes.subrange(9, 9 + esize.len() as int) =~= esize);
    lemma_read_encoded_at(plen, bytes, 9);
    let next: int = 9 + esize.len() as int + payload.len() as int;
    assert(next == 8 + other.len());
    assert(bytes.subrange(next, next + sec.len()) =~= sec);
    lemma_memory_section_at(bytes, next, minimum, maximum);
    lemma_leb_advances(bytes, 9, 0);
}

/// Reads a LEB128 `u32` at `*pos` that must end no later than `end`.
fn read_leb_within(bytes: &[u8], pos: &mut usize, end: usize) -> (r: Option<u32>)
    ensures
        match spec_read_within(bytes@, *old(pos) as int, end as int) {
            Some((v, q)) => r == Some(v) && *final(pos) as int == q,
            None => r is None,
        },
{
    let v = read_leb_u32(bytes, pos);
    if *pos > end {
        return None;
    }
    v
}

/// Reads the limits of the first memory of a memory-section payload that
/// occupies the bytes from `pos` up to `end`.
fn read_memory_entry(bytes: &[u8], pos: usize, end: usize) -> (r: Option<MemoryType>)
    ensures
        match r {
            Some(m) => spec_memory_entry(bytes@, pos as int, end as int) == Some(m@),
            None => spec_memory_entry(bytes@, pos as int, end as int) is None,
        },
{
    let mut mp: usize = pos;
    let count = match read_leb_within(bytes, &mut mp, end) {
        Some(c) => c,
        None => return None,
    };
    if count == 0 {
        return None;
    }
    let flags = match read_leb_within(bytes, &mut mp, end) {
        Some(f) => f,
        None => return None,
    };
    let minimum = match read_leb_within(bytes, &mut mp, end) {
        Some(m) => m as u64,
        None => return None,
    };
    let maximum = if flags & 0x01u32 != 0 {
        assert(flags % 2 == 1) by (bit_vector)
            requires
                flags & 0x01u32 != 0,
        ;
        match read_leb_within(bytes, &mut mp, end) {
            Some(m) => Some(m as u64),
            None => return None,
        }
    } else {
        assert(flags % 2 == 0) by (bit_vector)
            requires
                flags & 0x01u32 == 0,
        ;
        None
    };
    Some(MemoryType::new(minimum, maximum))
}

/// Parses the declared type of the module's (single) linear memory from raw
/// Wasm bytes, returning `None` if it defines no memory.
///
/// WAMR forbids multi-memory with the fast interpreter, so a module defines at
/// most one memory; this reads the first entry of the memory section (section
/// id 5). Returns `None` on malformed input.
pub fn parse_memory_type(bytes: &[u8]) -> (r: Option<MemoryType>)
    ensures
        match r {
            Some(m) => spec_parse_memory_type(bytes@) == Some(m@),
            None => spec_parse_memory_type(bytes@) is None,
        },
{
    if bytes.len() < 8 || bytes[0] != 0x00u8 || bytes[1] != 0x61u8 || bytes[2] != 0x73u8
        || bytes[3] != 0x6du8 {
        return None;
    }
    let mut pos: usize = 8;
    while pos < bytes.len()
        invariant
            8 <= pos <= bytes@.len(),
            has_preamble(bytes@),
            spec_sections_memory(bytes@, pos as int) == spec_parse_memory_type(bytes@),
        decreases bytes@.len() - pos,
    {
        let ghost start = pos as int;
        let id: u8 = bytes[pos];
        pos = pos + 1;
        let size: usize = match read_leb_u32(bytes, &mut pos) {
            Some(s) => s as usize,
            None => return None,
        };
        proof {
            lemma_leb_advances(bytes@, start + 1, 0);
        }
        let payload_end: usize = match pos.checked_add(size) {
            Some(e) => e,
            None => return None,
        };
        if payload_end > bytes.len() {
            return None;
        }
        if id == MEMORY_SECTION_ID {
            return read_memory_entry(bytes, pos, payload_end);
        }
        pos = payload_end;
    }
    None
}

/// A loaded Wasm module, ready to be instantiated.
///
/// Loading and validation are the runtime's work; the module keeps the
/// engine it was loaded with and the declared type of its linear memory,
/// parsed from the original bytes because WAMR discards the declared page
/// limits of memories that never grow.
#[derive(Debug)]
pub struct Module {
    memory_type: Option<MemoryType>,
    engine: Engine,
}

impl Module {
    /// The declared memory limits of the module, if it defines a memory.
    pub closed spec fn spec_memory_type(&self) -> Option<(u64, Option<u64>)> {
        match self.memory_type {
            Some(m) => Some(m@),
            None => None,
        }
    }

    /// The engine the module was loaded with.
    pub closed spec fn spec_engine(&self) -> Engine {
        self.engine
    }

    /// Builds the module for `bytes` from the runtime's verdict on loading
    /// them: `Err` carries the runtime's diagnostic message.
    ///
    /// Fails with [`Error::ModuleLoad`] carrying that message when the runtime
    /// rejected the bytes; otherwise records the declared memory type parsed
    /// from `bytes`.
    pub fn new(engine: &Engine, bytes: &[u8], loaded: Result<(), String>) -> (r: Result<Module, Error>)
        ensures
            match loaded {
                Err(msg) => r matches Err(e) && e == Error::ModuleLoad(msg),
                Ok(()) => r matches Ok(m) && m.spec_memory_type() == spec_parse_memory_type(bytes@)
                    && m.spec_engine() == *engine,
            },
    {
        match loaded {
            Err(msg) => Err(Error::ModuleLoad(msg)),
            Ok(()) => {
                let memory_type = parse_memory_type(bytes);
                Ok(Module { memory_type, engine: *engine })
            },
        }
    }

    /// The [`Engine`] this module belongs to.
    pub fn engine(&self) -> (e: &Engine)
        ensures
            *e == self.spec_engine(),
    {
        &self.engine
    }

    /// The declared [`MemoryType`] of this module's linear memory, if any.
    pub fn memory_type(&self) -> (r: Option<MemoryType>)
        ensures
            match r {
                Some(m) => self.spec_memory_type() == Some(m@),
                None => self.spec_memory_type() is None,
            },
    {
        self.memory_type
    }
}

} // verus!
