//! Unsigned LEB128 decoding of 32-bit integers, as the Wasm binary format
//! writes section sizes, vector counts and limits.

use vstd::prelude::*;

verus! {

/// `128` to the power `n`.
pub open spec fn pow128(n: nat) -> nat
    decreases n,
{
    if n == 0 {
        1
    } else {
        128 * pow128((n - 1) as nat)
    }
}

/// The number a little-endian base-128 byte string stands for, reading the
/// low seven bits of each byte as one digit.
pub open spec fn leb_payload(bytes: Seq<u8>) -> nat
    decreases bytes.len(),
{
    if bytes.len() == 0 {
        0
    } else {
        (bytes[0] % 128) as nat + 128 * leb_payload(bytes.drop_first())
    }
}

/// The length of the LEB128 encoding of a 32-bit integer that starts at
/// `pos`, searching from its byte `k` on: the encoding ends with the first
/// byte below `0x80`, and a 32-bit integer takes at most five bytes.
/// `None` when the input ends first or the fifth byte still continues.
pub open spec fn leb_len_from(buf: Seq<u8>, pos: int, k: nat) -> Option<nat>
    decreases 5 - k,
{
    if k >= 5 || pos + k >= buf.len() {
        None
    } else if buf[pos + k] < 0x80 {
        Some(k + 1)
    } else {
        leb_len_from(buf, pos, k + 1)
    }
}

/// The 32-bit integer that the LEB128 encoding at `pos` stands for, and the
/// position just past the encoding; `None` when the encoding is cut short,
/// runs past five bytes, or stands for a number that does not fit in 32 bits.
pub open spec fn spec_read_leb_u32(buf: Seq<u8>, pos: int) -> Option<(u32, int)> {
    match leb_len_from(buf, pos, 0) {
        Some(n) => {
            let v = leb_payload(buf.subrange(pos, pos + n));
            if v < 0x1_0000_0000 {
                Some((v as u32, pos + n))
            } else {
                None
            }
        },
        None => None,
    }
}

/// Where the reader stops when the encoding at `pos` is malformed: at the end
/// of the input, or after the fifth byte (which either continues or carries
/// bits beyond the 32nd).
pub open spec fn leb_failure_pos(len: int, pos: int) -> int {
    if pos >= len {
        pos
    } else if pos + 5 <= len {
        pos + 5
    } else {
        len
    }
}

proof fn lemma_pow128_values()
    ensures
        pow128(0) == 1,
        pow128(1) == 128,
        pow128(2) == 16384,
        pow128(3) == 2097152,
        pow128(4) == 268435456,
        pow128(5) == 34359738368,
{
    reveal_with_fuel(pow128, 6);
}

/// Appending a digit adds it at the next power of `128`.
proof fn lemma_leb_payload_push(s: Seq<u8>, b: u8)
    ensures
        leb_payload(s.push(b)) == leb_payload(s) + (b % 128) as nat * pow128(s.len()),
    decreases s.len(),
{
    let d = (b % 128) as nat;
    if s.len() == 0 {
        assert(s.push(b).drop_first() =~= Seq::<u8>::empty());
        assert(leb_payload(Seq::<u8>::empty()) == 0);
        assert(s.push(b)[0] == b);
        assert(leb_payload(s.push(b)) == d);
        assert(pow128(0) == 1);
        assert(d * pow128(s.len()) == d);
    } else {
        let rest = s.drop_first();
        assert(s.push(b).drop_first() =~= rest.push(b));
        assert(s.push(b)[0] == s[0]);
        lemma_leb_payload_push(rest, b);
        let p = pow128(rest.len());
        assert(pow128(s.len()) == 128 * p);
        assert(128 * (leb_payload(rest) + d * p) == 128 * leb_payload(rest) + d * (128 * p))
            by (nonlinear_arith);
    }
}

/// A payload of `n` digits is below `128^n`.
proof fn lemma_leb_payload_bound(s: Seq<u8>)
    ensures
        leb_payload(s) < pow128(s.len()),
    decreases s.len(),
{
    if s.len() > 0 {
        lemma_leb_payload_bound(s.drop_first());
        let r = leb_payload(s.drop_first());
        let p = pow128((s.len() - 1) as nat);
        assert(128 * r <= 128 * (p - 1)) by (nonlinear_arith)
            requires
                r <= p - 1,
        ;
    }
}

/// OR-ing a digit in at bit `7k` of a value below `2^(7k)` adds it, modulo
/// `2^32`.
proof fn lemma_leb_step(r: u32, x: u32, k: nat, shift: u32)
    requires
        k <= 4,
        shift == 7 * k,
        (r as nat) < pow128(k),
        x < 128,
    ensures
        (r | (x << shift)) as nat == ((r as nat + x as nat * pow128(k)) % 0x1_0000_0000),
{
    lemma_pow128_values();
    let xn = x as nat;
    if k == 0 {
        assert(xn * pow128(k) == xn);
        assert((r | (x << shift)) == r + x) by (bit_vector)
            requires
                r < 1,
                x < 128,
                shift == 0,
        ;
    } else if k == 1 {
        assert(xn * pow128(k) == xn * 128);
        assert((r | (x << shift)) == r + x * 128) by (bit_vector)
            requires
                r < 128,
                x < 128,
                shift == 7,
        ;
    } else if k == 2 {
        assert(xn * pow128(k) == xn * 16384);
        assert((r | (x << shift)) == r + x * 16384) by (bit_vector)
            requires
                r < 16384,
                x < 128,
                shift == 14,
        ;
    } else if k == 3 {
        assert(xn * pow128(k) == xn * 2097152);
        assert((r | (x << shift)) == r + x * 2097152) by (bit_vector)
            requires
                r < 2097152,
                x < 128,
                shift == 21,
        ;
    } else {
        assert(xn * pow128(k) == xn * 268435456);
        assert((r | (x << shift)) == (r + x * 268435456) % 0x1_0000_0000) by (bit_vector)
            requires
                r < 268435456,
                x < 128,
                shift == 28,
        ;
    }
}

/// The shortest unsigned LEB128 encoding of `v`: seven bits per byte, least
/// significant first, the high bit set on every byte but the last.
pub open spec fn leb_encode(v: nat) -> Seq<u8>
    decreases v,
{
    if v < 128 {
        seq![v as u8]
    } else {
        seq![(v % 128 + 128) as u8] + leb_encode(v / 128)
    }
}

proof fn lemma_encode_len(v: nat, k: nat)
    requires
        k >= 1,
        v < pow128(k),
    ensures
        1 <= leb_encode(v).len() <= k,
    decreases v,
{
    if v >= 128 {
        assert(k >= 2) by {
            if k == 1 {
                assert(pow128(1) == 128) by {
                    reveal_with_fuel(pow128, 2);
                }
            }
        }
        assert(pow128(k) == 128 * pow128((k - 1) as nat));
        assert(v / 128 < pow128((k - 1) as nat));
        lemma_encode_len(v / 128, (k - 1) as nat);
    }
}

proof fn lemma_encode_payload(v: nat)
    ensures
        leb_payload(leb_encode(v)) == v,
    decreases v,
{
    let e = leb_encode(v);
    if v < 128 {
        assert(e.drop_first() =~= Seq::<u8>::empty());
        assert(leb_payload(Seq::<u8>::empty()) == 0);
    } else {
        assert(e.drop_first() =~= leb_encode(v / 128));
        lemma_encode_payload(v / 128);
    }
}

proof fn lemma_encode_terminates(v: nat, buf: Seq<u8>, pos: int, k: nat)
    requires
        0 <= pos,
        pos + k + leb_encode(v).len() <= buf.len(),
        k + leb_encode(v).len() <= 5,
        buf.subrange(pos + k, pos + k + leb_encode(v).len()) == leb_encode(v),
    ensures
        leb_len_from(buf, pos, k) == Some((k + leb_encode(v).len()) as nat),
    decreases v,
{
    let e = leb_encode(v);
    assert(buf[pos + k] == e[0]);
    if v >= 128 {
        let tail = leb_encode(v / 128);
        assert(buf.subrange(pos + k + 1, pos + k + 1 + tail.len()) =~= tail) by {
            assert forall|i: int| 0 <= i < tail.len() implies buf[pos + k + 1 + i] == tail[i] by {
                assert(buf.subrange(pos + k, pos + k + e.len())[1 + i] == e[1 + i]);
            }
        }
        lemma_encode_terminates(v / 128, buf, pos, k + 1);
    }
}

/// Reading the shortest LEB128 encoding of a 32-bit value, wherever it
/// stands in a buffer, gives the value back and ends just past the encoding.
pub proof fn lemma_read_encoded_at(v: u32, buf: Seq<u8>, pos: int)
    requires
        0 <= pos,
        pos + leb_encode(v as nat).len() <= buf.len(),
        buf.subrange(pos, pos + leb_encode(v as nat).len()) == leb_encode(v as nat),
    ensures
        1 <= leb_encode(v as nat).len() <= 5,
        spec_read_leb_u32(buf, pos) == Some((v, pos + leb_encode(v as nat).len())),
{
    let e = leb_encode(v as nat);
    assert(pow128(5) == 34359738368) by {
        reveal_with_fuel(pow128, 6);
    }
    lemma_encode_len(v as nat, 5);
    assert(buf.subrange(pos + 0, pos + 0 + e.len()) == e);
    lemma_encode_terminates(v as nat, buf, pos, 0);
    lemma_encode_payload(v as nat);
}

/// Reading the shortest LEB128 encoding of a 32-bit value, whatever bytes
/// follow it, gives the value back and ends just past the encoding.
pub proof fn lemma_read_inverts_encode(v: u32, rest: Seq<u8>)
    ensures
        spec_read_leb_u32(leb_encode(v as nat) + rest, 0) == Some(
            (v, leb_encode(v as nat).len() as int),
        ),
{
    let e = leb_encode(v as nat);
    let buf = e + rest;
    assert(buf.subrange(0, e.len() as int) =~= e);
    lemma_read_encoded_at(v, buf, 0);
}

/// A value below `128` is encoded as the single byte it is.
pub proof fn lemma_encode_small(v: nat)
    requires
        v < 128,
    ensures
        leb_encode(v) == seq![v as u8],
{
}

/// One more byte of an encoding: its digit lands at the next power of `128`,
/// and OR-ing it into the running value computes the new payload whenever
/// that payload fits in 32 bits, which on the fifth byte happens exactly when
/// the digit is below 16.
proof fn lemma_leb_byte(consumed: Seq<u8>, byte: u8, result: u32, x: u32, k: nat, shift: u32)
    requires
        k <= 4,
        shift == 7 * k,
        consumed.len() == k,
        k == 0 ==> result == 0,
        k > 0 ==> result as nat == leb_payload(consumed),
        (result as nat) < pow128(k),
        x as nat == byte % 128,
    ensures
        leb_payload(consumed.push(byte)) == result as nat + x as nat * pow128(k),
        leb_payload(consumed.push(byte)) < pow128(k + 1),
        k < 4 ==> leb_payload(consumed.push(byte)) < 0x1000_0000,
        k == 4 ==> (leb_payload(consumed.push(byte)) < 0x1_0000_0000 <==> x < 16),
        leb_payload(consumed.push(byte)) < 0x1_0000_0000 ==> (result | (x << shift)) as nat
            == leb_payload(consumed.push(byte)),
{
    lemma_pow128_values();
    if k == 0 {
        assert(consumed =~= Seq::<u8>::empty());
        assert(leb_payload(consumed) == 0);
    }
    lemma_leb_payload_push(consumed, byte);
    lemma_leb_payload_bound(consumed.push(byte));
    lemma_leb_step(result, x, k, shift);
    let xn = x as nat;
    let p = leb_payload(consumed.push(byte));
    assert(p == result as nat + xn * pow128(k));
    if k == 4 {
        assert(xn * pow128(k) == xn * 268435456);
        assert(xn < 16 ==> xn * 268435456 <= 15 * 268435456) by (nonlinear_arith);
        assert(xn >= 16 ==> xn * 268435456 >= 16 * 268435456) by (nonlinear_arith);
    } else {
        assert(pow128(k + 1) <= 268435456);
    }
}

/// Reads an unsigned LEB128 `u32` from `buf` at `*pos`, advancing `*pos` past
/// every byte it reads. Returns `None` if the input is truncated or the value
/// overflows 32 bits.
pub fn read_leb_u32(buf: &[u8], pos: &mut usize) -> (r: Option<u32>)
    ensures
        match spec_read_leb_u32(buf@, *old(pos) as int) {
            Some((v, end)) => r == Some(v) && *final(pos) as int == end,
            None => r is None && *final(pos) as int == leb_failure_pos(
                buf@.len() as int,
                *old(pos) as int,
            ),
        },
{
    let ghost start: int = *pos as int;
    let mut result: u32 = 0;
    let mut shift: u32 = 0;
    let mut k: usize = 0;
    proof {
        lemma_pow128_values();
    }
    loop
        invariant
            k <= 4,
            shift == 7 * k,
            start == *old(pos) as int,
            *pos as int == start + k,
            k > 0 ==> start + k <= buf@.len(),
            k == 0 ==> result == 0,
            k > 0 ==> result as nat == leb_payload(buf@.subrange(start, start + k)),
            (result as nat) < pow128(k as nat),
            leb_len_from(buf@, start, 0) == leb_len_from(buf@, start, k as nat),
            pow128(0) == 1,
            pow128(1) == 128,
            pow128(2) == 16384,
            pow128(3) == 2097152,
            pow128(4) == 268435456,
        decreases 5 - k,
    {
        if *pos >= buf.len() {
            return None;
        }
        let byte: u8 = buf[*pos];
        let ghost consumed = buf@.subrange(start, start + k);
        *pos = *pos + 1;
        let x: u32 = (byte & 0x7fu8) as u32;
        assert(x == byte % 128) by (bit_vector)
            requires
                x == (byte & 0x7fu8) as u32,
        ;
        proof {
            if k == 0 {
                assert(consumed =~= Seq::<u8>::empty());
            }
            lemma_leb_byte(consumed, byte, result, x, k as nat, shift);
            assert(buf@.subrange(start, start + k + 1) =~= consumed.push(byte));
        }
        if shift == 28 && x >= 16 {
            // The fifth byte would set bits above the 32nd.
            assert(leb_len_from(buf@, start, 5) is None);
            return None;
        }
        result = result | (x << shift);
        if byte & 0x80u8 == 0 {
            assert(byte < 0x80) by (bit_vector)
                requires
                    byte & 0x80u8 == 0,
            ;
            return Some(result);
        }
        assert(byte >= 0x80) by (bit_vector)
            requires
                byte & 0x80u8 != 0,
        ;
        shift = shift + 7;
        k = k + 1;
        if shift >= 32 {
            return None;
        }
    }
}

} // verus!
