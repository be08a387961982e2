//! Minecraft VarInt encoding.
//!
//! A VarInt stores a 32-bit two's complement integer in one to five bytes, seven bits per
//! byte, least significant group first. The high bit of each byte tells whether another
//! byte follows.
use vstd::prelude::*;

verus! {

/// Most bytes a VarInt may take.
pub const VAR_INT_MAX_BYTES: usize = 5;

/// The encoding of an unsigned 32-bit pattern.
pub open spec fn var_int_bytes_u(v: u32) -> Seq<u8>
    decreases v,
{
    if v < 0x80 {
        seq![v as u8]
    } else {
        proof {
            shift_seven_decreases(v);
        }
        seq![((v & 0x7f) | 0x80) as u8] + var_int_bytes_u(v >> 7)
    }
}

/// The encoding of a signed 32-bit integer: that of its two's complement bit pattern.
pub open spec fn var_int_bytes(v: i32) -> Seq<u8> {
    var_int_bytes_u(v as u32)
}

/// Decoding state machine: having read `i` bytes, `acc` holds the bits read so far.
///
/// Returns the number of bytes the VarInt takes and its bit pattern.
pub open spec fn parse_var_int_from(s: Seq<u8>, i: int, acc: u32) -> Option<(int, u32)>
    decreases 5 - i,
{
    if i < 0 || i >= 5 || i >= s.len() {
        None
    } else {
        let b = s[i];
        let next = acc | (((b & 0x7f) as u32) << ((7 * i) as u32));
        if b < 0x80 {
            Some((i + 1, next))
        } else {
            parse_var_int_from(s, i + 1, next)
        }
    }
}

/// A VarInt at the start of `s`: its byte length and value, or `None` if `s` holds no
/// complete VarInt within its first five bytes.
pub open spec fn parse_var_int(s: Seq<u8>) -> Option<(int, i32)> {
    match parse_var_int_from(s, 0, 0) {
        Some((n, v)) => Some((n, v as i32)),
        None => None,
    }
}

pub proof fn shift_seven_decreases(v: u32)
    requires
        v >= 0x80,
    ensures
        v >> 7 < v,
{
    assert(v >= 0x80 ==> v >> 7 < v) by (bit_vector);
}

proof fn lemma_parse_var_int_from_len(s: Seq<u8>, i: int, acc: u32)
    ensures
        parse_var_int_from(s, i, acc) matches Some((n, v)) ==> i < n <= s.len() && n <= 5,
    decreases 5 - i,
{
    if 0 <= i < 5 && i < s.len() {
        let b = s[i];
        let next = acc | (((b & 0x7f) as u32) << ((7 * i) as u32));
        lemma_parse_var_int_from_len(s, i + 1, next);
    }
}

/// A VarInt takes one to five bytes, all within the input.
pub proof fn lemma_parse_var_int_len(s: Seq<u8>)
    ensures
        parse_var_int(s) matches Some((n, v)) ==> 1 <= n <= s.len() && n <= 5,
{
    lemma_parse_var_int_from_len(s, 0, 0);
}

proof fn lemma_parse_var_int_from_prefix(s: Seq<u8>, k: int, i: int, acc: u32)
    requires
        parse_var_int_from(s, i, acc) matches Some((n, v)) && n <= k <= s.len(),
    ensures
        parse_var_int_from(s.subrange(0, k), i, acc) == parse_var_int_from(s, i, acc),
    decreases 5 - i,
{
    lemma_parse_var_int_from_len(s, i, acc);
    let b = s[i];
    let next = acc | (((b & 0x7f) as u32) << ((7 * i) as u32));
    assert(s.subrange(0, k)[i] == b);
    if b >= 0x80 {
        lemma_parse_var_int_from_prefix(s, k, i + 1, next);
    }
}

/// A VarInt reads the same from any prefix of the input that holds it.
pub proof fn lemma_parse_var_int_prefix(s: Seq<u8>, k: int)
    requires
        parse_var_int(s) matches Some((n, v)) && n <= k <= s.len(),
    ensures
        parse_var_int(s.subrange(0, k)) == parse_var_int(s),
{
    lemma_parse_var_int_from_prefix(s, k, 0, 0);
}

/// Read a VarInt from the start of `buf`.
///
/// Returns the number of bytes it takes and its value.
pub fn read_var_int(buf: &[u8]) -> (res: Result<(usize, i32), ()>)
    ensures
        match parse_var_int(buf@) {
            Some((n, v)) => 1 <= n <= buf@.len() && n <= 5 && res == Ok::<(usize, i32), ()>(
                (n as usize, v),
            ),
            None => res is Err,
        },
{
    proof {
        lemma_parse_var_int_len(buf@);
    }
    let mut acc: u32 = 0;
    let mut i: usize = 0;
    while i < VAR_INT_MAX_BYTES && i < buf.len()
        invariant
            i <= 5,
            i <= buf.len(),
            parse_var_int_from(buf@, 0, 0) == parse_var_int_from(buf@, i as int, acc),
        decreases 5 - i,
    {
        let b = buf[i];
        acc = acc | (((b & 0x7f) as u32) << ((7 * i) as u32));
        i = i + 1;
        if b < 0x80 {
            return Ok((i, acc as i32));
        }
    }
    Err(())
}

/// Encode an integer as a VarInt.
pub fn encode_var_int(value: i32) -> (res: Vec<u8>)
    ensures
        res@ == var_int_bytes(value),
{
    let mut v: u32 = value as u32;
    let mut out: Vec<u8> = Vec::new();
    while v >= 0x80
        invariant
            out@ + var_int_bytes_u(v) == var_int_bytes(value),
        decreases v,
    {
        proof {
            shift_seven_decreases(v);
        }
        let ghost before = out@;
        out.push(((v & 0x7f) | 0x80) as u8);
        assert(out@ + var_int_bytes_u(v >> 7) == before + var_int_bytes_u(v));
        v = v >> 7;
    }
    out.push(v as u8);
    out
}

/// One step of the round trip: the bits of `v` above the first `i` groups are read
/// back from their encoding at position `i`, on top of the `i` groups already in `acc`.
proof fn lemma_parse_var_int_suffix(s: Seq<u8>, i: u32, acc: u32, v: u32)
    requires
        i <= 4,
        ((v >> ((7 * i) as u32)) << ((7 * i) as u32)) | acc == v,
        acc >> ((7 * i) as u32) == 0,
        i + var_int_bytes_u(v >> ((7 * i) as u32)).len() <= s.len(),
        s.subrange(i as int, i + var_int_bytes_u(v >> ((7 * i) as u32)).len())
            == var_int_bytes_u(v >> ((7 * i) as u32)),
    ensures
        parse_var_int_from(s, i as int, acc) == Some(
            (i + var_int_bytes_u(v >> ((7 * i) as u32)).len(), v),
        ),
        var_int_bytes_u(v >> ((7 * i) as u32)).len() <= 5 - i,
    decreases 4 - i,
{
    let k: u32 = (7 * i) as u32;
    let w: u32 = v >> k;
    let enc = var_int_bytes_u(w);
    let len = enc.len();
    assert(s.subrange(i as int, i + len)[0] == s[i as int]);
    let b = s[i as int];
    if w < 0x80 {
        assert(b == w as u8);
        assert(acc | (((b & 0x7f) as u32) << k) == v) by (bit_vector)
            requires
                w == v >> k,
                w < 0x80,
                (w << k) | acc == v,
                b == w as u8,
        ;
        assert(b < 0x80) by (bit_vector)
            requires
                w < 0x80,
                b == w as u8,
        ;
    } else {
        shift_seven_decreases(w);
        let next: u32 = acc | (((b & 0x7f) as u32) << k);
        assert(b == #[verifier::truncate] (((w & 0x7f) | 0x80) as u8));
        assert(i <= 3) by (bit_vector)
            requires
                w == v >> k,
                w >= 0x80,
                k == 7 * i,
                i <= 4,
        ;
        let k2: u32 = (7 * (i + 1)) as u32;
        assert(b >= 0x80 && w >> 7 == v >> k2 && ((v >> k2) << k2) | next == v && next >> k2 == 0)
            by (bit_vector)
            requires
                w == v >> k,
                w >= 0x80,
                k == 7 * i,
                k2 == k + 7,
                i <= 3,
                (w << k) | acc == v,
                acc >> k == 0,
                b == ((w & 0x7f) | 0x80) as u8,
                next == acc | (((b & 0x7f) as u32) << k),
        ;
        let enc2 = var_int_bytes_u(w >> 7);
        assert(enc == seq![b] + enc2);
        assert(s.subrange((i + 1) as int, (i + 1) + enc2.len()) =~= s.subrange(
            i as int,
            i + len,
        ).subrange(1, len as int));
        assert((seq![b] + enc2).subrange(1, len as int) =~= enc2);
        let i2: u32 = (i + 1) as u32;
        assert((7 * i2) as u32 == k2);
        assert(v >> ((7 * i2) as u32) == w >> 7);
        assert(var_int_bytes_u(v >> ((7 * i2) as u32)) == enc2);
        lemma_parse_var_int_suffix(s, i2, next, v);
    }
}

/// Decoding the encoding of a VarInt, followed by any bytes, gives back its length and
/// value; the encoding takes one to five bytes.
pub proof fn lemma_var_int_roundtrip(v: i32, rest: Seq<u8>)
    ensures
        parse_var_int(var_int_bytes(v) + rest) == Some((var_int_bytes(v).len() as int, v)),
        1 <= var_int_bytes(v).len() <= 5,
{
    let u: u32 = v as u32;
    let s = var_int_bytes(v) + rest;
    assert(((u >> 0u32) << 0u32) | 0u32 == u && 0u32 >> 0u32 == 0u32 && u >> 0u32 == u)
        by (bit_vector);
    assert(s.subrange(0, var_int_bytes_u(u).len() as int) =~= var_int_bytes_u(u));
    lemma_parse_var_int_suffix(s, 0, 0, u);
    assert((u as i32) == v) by (bit_vector)
        requires
            u == v as u32,
    ;
}

} // verus!
