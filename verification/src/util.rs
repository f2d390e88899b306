//! Small helpers shared across modules: C-string buffers handed back by the
//! runtime, NUL checks on names, and decimal rendering of counts.

use vstd::prelude::*;
use vstd::string::StringSliceAdditionalSpecFns;
use vstd::utf8::{decode_utf8, valid_utf8};

verus! {

/// Size of the buffer the runtime writes diagnostic messages into.
pub const ERROR_BUF_SIZE: usize = 256;

/// The bytes of a NUL-terminated C buffer before its first NUL (all of it if
/// it holds none).
pub open spec fn cstr_prefix(buf: Seq<u8>) -> Seq<u8> {
    if exists|i: int| 0 <= i < buf.len() && buf[i] == 0u8 {
        buf.take(choose|i: int| 0 <= i < buf.len() && buf[i] == 0u8 && forall|j: int| 0 <= j < i ==> buf[j] != 0u8)
    } else {
        buf
    }
}

/// The text that lossy UTF-8 decoding makes of a byte string (invalid
/// sequences become U+FFFD).
pub uninterp spec fn utf8_lossy(bytes: Seq<u8>) -> Seq<char>;

/// Decodes bytes as UTF-8, replacing invalid sequences.
///
/// Calls `String::from_utf8_lossy` and takes ownership of its result. The
/// contract names the decoded text, and states only that valid UTF-8 is
/// decoded as it stands; how invalid sequences are replaced is left unsaid.
#[verifier::external_body]
fn string_from_utf8_lossy(bytes: &[u8]) -> (s: String)
    ensures
        s@ == utf8_lossy(bytes@),
        valid_utf8(bytes@) ==> s@ == decode_utf8(bytes@),
{
    String::from_utf8_lossy(bytes).into_owned()
}

/// Returns the bytes of `buf` before its first NUL byte.
pub fn cstr_bytes(buf: &[u8]) -> (out: Vec<u8>)
    ensures
        out@ == cstr_prefix(buf@),
        !out@.contains(0u8),
{
    let mut out: Vec<u8> = Vec::new();
    let mut i: usize = 0;
    while i < buf.len() && buf[i] != 0u8
        invariant
            i <= buf@.len(),
            out@ == buf@.take(i as int),
            forall|j: int| 0 <= j < i ==> buf@[j] != 0u8,
        decreases buf@.len() - i,
    {
        out.push(buf[i]);
        assert(buf@.take(i + 1) == buf@.take(i as int).push(buf@[i as int]));
        i = i + 1;
    }
    proof {
        if i < buf@.len() {
            let k = choose|k: int|
                0 <= k < buf@.len() && buf@[k] == 0u8 && forall|j: int| 0 <= j < k ==> buf@[j] != 0u8;
            assert(buf@[i as int] == 0u8);
            if k < i {
                assert(buf@[k] != 0u8);
            }
            if i < k {
                assert(buf@[i as int] != 0u8);
            }
        } else {
            assert(buf@.take(i as int) == buf@);
        }
        assert forall|j: int| 0 <= j < out@.len() implies out@[j] != 0u8 by {
            assert(out@[j] == buf@[j]);
        }
    }
    out
}

/// Converts a NUL-terminated C buffer into an owned `String`, decoding the
/// bytes before the first NUL lossily.
pub fn cstr_buf_to_string(buf: &[u8]) -> (s: String)
    ensures
        s@ == utf8_lossy(cstr_prefix(buf@)),
        valid_utf8(cstr_prefix(buf@)) ==> s@ == decode_utf8(cstr_prefix(buf@)),
{
    let bytes = cstr_bytes(buf);
    string_from_utf8_lossy(bytes.as_slice())
}

/// Whether a string's UTF-8 encoding holds a NUL byte, so that it cannot be
/// passed to C as a NUL-terminated string.
pub fn has_interior_nul(s: &str) -> (b: bool)
    ensures
        b == s.spec_bytes().contains(0u8),
{
    let bytes = s.as_bytes();
    let mut i: usize = 0;
    while i < bytes.len()
        invariant
            i <= bytes@.len(),
            bytes@ == s.spec_bytes(),
            forall|j: int| 0 <= j < i ==> bytes@[j] != 0u8,
        decreases bytes@.len() - i,
    {
        if bytes[i] == 0u8 {
            return true;
        }
        i = i + 1;
    }
    false
}

/// The decimal digit character of `d`.
pub open spec fn digit_char(d: nat) -> char {
    if d == 0 {
        '0'
    } else if d == 1 {
        '1'
    } else if d == 2 {
        '2'
    } else if d == 3 {
        '3'
    } else if d == 4 {
        '4'
    } else if d == 5 {
        '5'
    } else if d == 6 {
        '6'
    } else if d == 7 {
        '7'
    } else if d == 8 {
        '8'
    } else {
        '9'
    }
}

/// The decimal rendering of `n`, most significant digit first, without
/// leading zeros.
pub open spec fn decimal(n: nat) -> Seq<char>
    decreases n,
{
    if n < 10 {
        seq![digit_char(n)]
    } else {
        decimal(n / 10).push(digit_char(n % 10))
    }
}

/// The one-character string of a decimal digit.
fn digit_str(d: usize) -> (s: &'static str)
    requires
        d < 10,
    ensures
        s@ == seq![digit_char(d as nat)],
{
    if d == 0 {
        proof { reveal_strlit("0"); }
        "0"
    } else if d == 1 {
        proof { reveal_strlit("1"); }
        "1"
    } else if d == 2 {
        proof { reveal_strlit("2"); }
        "2"
    } else if d == 3 {
        proof { reveal_strlit("3"); }
        "3"
    } else if d == 4 {
        proof { reveal_strlit("4"); }
        "4"
    } else if d == 5 {
        proof { reveal_strlit("5"); }
        "5"
    } else if d == 6 {
        proof { reveal_strlit("6"); }
        "6"
    } else if d == 7 {
        proof { reveal_strlit("7"); }
        "7"
    } else if d == 8 {
        proof { reveal_strlit("8"); }
        "8"
    } else {
        proof { reveal_strlit("9"); }
        "9"
    }
}

/// Renders `n` in decimal.
pub fn usize_to_decimal(n: usize) -> (s: String)
    ensures
        s@ == decimal(n as nat),
    decreases n,
{
    if n < 10 {
        String::from_str(digit_str(n))
    } else {
        let mut s = usize_to_decimal(n / 10);
        s.append(digit_str(n % 10));
        s
    }
}

} // verus!
