//! The `CompressedContainer` decompressor.
//!
//! A container is the signature byte `0x01` followed by one or more chunks. Each
//! chunk starts with a little-endian 16-bit header; its body is either copied
//! verbatim or decoded as a sequence of flag bytes, literal tokens and copy
//! tokens. The whole input must be consumed.
use crate::error::Error;
use vstd::arithmetic::power2::{lemma2_to64, lemma_pow2_unfold, pow2};
use vstd::prelude::*;

verus! {

/// Largest number of bytes a chunk decompresses to; a chunk whose tokens
/// would produce more is malformed.
pub const MAX_CHUNK_LEN: usize = 4096;

/// The little-endian 16-bit value at position `p` of `s`.
pub open spec fn le16(s: Seq<u8>, p: int) -> u16 {
    (s[p] as int + 256 * s[p + 1] as int) as u16
}

/// Bits 12 to 14 of a chunk header hold the fixed pattern `0b011`.
pub open spec fn header_magic_ok(h: u16) -> bool {
    (h >> 12u16) & 7u16 == 3u16
}

/// Bit 15 of a chunk header tells a compressed chunk from a raw one.
pub open spec fn header_compressed(h: u16) -> bool {
    (h >> 15u16) & 1u16 == 1u16
}

/// Bits 0 to 11 of a chunk header hold the body's size minus one.
pub open spec fn header_body_len(h: u16) -> int {
    (h & 0xfffu16) as int + 1
}

/// The number of offset bits of a copy token: start at 4 and grow while
/// `2^b` is below the chunk's current output length `n`. The bound 15 is never
/// reached for `n <= MAX_CHUNK_LEN`.
pub open spec fn bit_count_from(b: nat, n: int) -> nat
    decreases 15 - b,
{
    if b >= 15 || n <= pow2(b) {
        b
    } else {
        bit_count_from(b + 1, n)
    }
}

pub open spec fn copy_bit_count(n: int) -> nat {
    bit_count_from(4, n)
}

/// Run length of a copy token: the low `16 - bit_count` bits plus three.
pub open spec fn copy_length(raw: u16, bit_count: u16) -> int {
    (raw & (0xffffu16 >> bit_count)) as int + 3
}

/// Back distance of a copy token: the high `bit_count` bits plus one.
pub open spec fn copy_offset(raw: u16, bit_count: u16) -> int {
    ((raw & !(0xffffu16 >> bit_count)) >> ((16 - bit_count) as u16)) as int + 1
}

/// Appends `length` bytes to `out`, one at a time, each read `offset` positions
/// back from the current end (so a run may repeat bytes it has just produced).
pub open spec fn copy_run(out: Seq<u8>, offset: int, length: nat) -> Seq<u8>
    decreases length,
{
    if length == 0 {
        out
    } else {
        let prev = copy_run(out, offset, (length - 1) as nat);
        prev.push(prev[prev.len() - offset])
    }
}

/// Whether the token at index `bit` of a flag byte is a copy token.
pub open spec fn flag_is_copy(flag: u8, bit: u8) -> bool {
    flag & (1u8 << bit) != 0u8
}

/// Decodes the tokens of a compressed chunk body from position `p`, where
/// `flag` is the current flag byte, `bit` the index of the next token within
/// it (8: a new flag byte comes next), and `out` what this chunk has produced.
/// Exhausted input ends the chunk, even in the middle of a flag byte.
pub open spec fn tokens_from(body: Seq<u8>, p: int, flag: u8, bit: u8, out: Seq<u8>) -> Option<
    Seq<u8>,
>
    decreases body.len() - p, 8 - bit,
{
    if p < 0 || bit > 8 {
        None
    } else if p >= body.len() {
        Some(out)
    } else if bit == 8 {
        tokens_from(body, p + 1, body[p], 0, out)
    } else if flag_is_copy(flag, bit) {
        if p + 2 > body.len() {
            None
        } else {
            let raw = le16(body, p);
            let bc = copy_bit_count(out.len() as int) as u16;
            let length = copy_length(raw, bc);
            let offset = copy_offset(raw, bc);
            if offset > out.len() || out.len() + length > MAX_CHUNK_LEN {
                None
            } else {
                tokens_from(body, p + 2, flag, (bit + 1) as u8, copy_run(out, offset, length as nat))
            }
        }
    } else if out.len() + 1 > MAX_CHUNK_LEN {
        None
    } else {
        tokens_from(body, p + 1, flag, (bit + 1) as u8, out.push(body[p]))
    }
}

/// The bytes a compressed chunk body decodes to, if it is well formed.
pub open spec fn compressed_body(body: Seq<u8>) -> Option<Seq<u8>> {
    tokens_from(body, 0, 0, 8, Seq::empty())
}

/// Decodes the chunks from position `p` of `s` up to its end; at least one chunk
/// must start at `p`, and the last must end exactly at the end of `s`.
pub open spec fn chunks_from(s: Seq<u8>, p: int) -> Option<Seq<u8>>
    decreases s.len() - p,
{
    if p < 0 || p + 2 > s.len() {
        None
    } else {
        let h = le16(s, p);
        let end = p + 2 + header_body_len(h);
        if !header_magic_ok(h) || end > s.len() {
            None
        } else {
            let body = s.subrange(p + 2, end);
            let data = if header_compressed(h) {
                compressed_body(body)
            } else {
                Some(body)
            };
            match data {
                None => None,
                Some(d) => if end == s.len() {
                    Some(d)
                } else {
                    match chunks_from(s, end) {
                        None => None,
                        Some(rest) => Some(d + rest),
                    }
                },
            }
        }
    }
}

/// What a `CompressedContainer` decompresses to, or `None` where it is malformed.
pub open spec fn decompressed(s: Seq<u8>) -> Option<Seq<u8>> {
    if s.len() == 0 || s[0] != 1u8 {
        None
    } else {
        chunks_from(s, 1)
    }
}

fn read_le16(s: &[u8], p: usize) -> (r: u16)
    requires
        p + 2 <= s@.len(),
    ensures
        r == le16(s@, p as int),
{
    s[p] as u16 + (s[p + 1] as u16) * 256
}

/// Copies a byte slice into a new vector.
pub(crate) fn copy_bytes(s: &[u8]) -> (r: Vec<u8>)
    ensures
        r@ == s@,
{
    let mut r: Vec<u8> = Vec::new();
    let mut k: usize = 0;
    while k < s.len()
        invariant
            k <= s@.len(),
            r@ == s@.subrange(0, k as int),
        decreases s@.len() - k,
    {
        r.push(s[k]);
        k = k + 1;
        assert(r@ =~= s@.subrange(0, k as int));
    }
    assert(r@ =~= s@);
    r
}

/// Computes the offset bit count of a copy token met after `n` bytes of output.
fn bit_count_for(n: usize) -> (r: u16)
    requires
        n <= MAX_CHUNK_LEN,
    ensures
        r as nat == copy_bit_count(n as int),
        4 <= r <= 15,
{
    let mut bit_count: u16 = 4;
    let mut limit: usize = 16;
    proof {
        lemma2_to64();
    }
    while limit < n && bit_count < 15
        invariant
            4 <= bit_count <= 15,
            limit == pow2(bit_count as nat),
            n <= MAX_CHUNK_LEN,
            bit_count_from(bit_count as nat, n as int) == copy_bit_count(n as int),
        decreases 15 - bit_count,
    {
        proof {
            lemma_pow2_unfold((bit_count + 1) as nat);
            lemma2_to64();
        }
        bit_count = bit_count + 1;
        limit = limit * 2;
    }
    bit_count
}

/// Decodes a compressed chunk body.
fn decompress_compressed(body: &[u8]) -> (r: Option<Vec<u8>>)
    ensures
        match compressed_body(body@) {
            None => r is None,
            Some(d) => r matches Some(v) && v@ == d,
        },
{
    let mut out: Vec<u8> = Vec::new();
    let mut p: usize = 0;
    let mut flag: u8 = 0;
    let mut bit: u8 = 8;
    while p < body.len()
        invariant
            p <= body@.len(),
            bit <= 8,
            out@.len() <= MAX_CHUNK_LEN,
            tokens_from(body@, p as int, flag, bit, out@) == compressed_body(body@),
        decreases body@.len() - p, 8 - bit,
    {
        if bit == 8 {
            flag = body[p];
            p = p + 1;
            bit = 0;
        } else if flag & (1u8 << bit) != 0 {
            if body.len() - p < 2 {
                return None;
            }
            let raw = read_le16(body, p);
            let n = out.len();
            let bit_count = bit_count_for(n);
            let length_mask: u16 = 0xffff >> bit_count;
            let offset_mask: u16 = !length_mask;
            assert(raw & length_mask <= 0xfff) by (bit_vector)
                requires
                    length_mask == 0xffffu16 >> bit_count,
                    4 <= bit_count,
            ;
            let length: usize = (raw & length_mask) as usize + 3;
            let offset: usize = ((raw & offset_mask) >> (16 - bit_count)) as usize + 1;
            assert(length == copy_length(raw, bit_count));
            assert(offset == copy_offset(raw, bit_count));
            if offset > n || length > MAX_CHUNK_LEN - n {
                return None;
            }
            let ghost start = out@;
            let mut k: usize = 0;
            while k < length
                invariant
                    k <= length,
                    1 <= offset <= n,
                    n == start.len(),
                    out@ == copy_run(start, offset as int, k as nat),
                    out@.len() == n + k,
                decreases length - k,
            {
                let b = out[out.len() - offset];
                out.push(b);
                k = k + 1;
            }
            p = p + 2;
            bit = bit + 1;
        } else {
            if out.len() >= MAX_CHUNK_LEN {
                return None;
            }
            out.push(body[p]);
            p = p + 1;
            bit = bit + 1;
        }
    }
    Some(out)
}

/// Decompresses a `CompressedContainer`.
///
/// Fails with `Error::Decompressor` on a bad signature, a bad chunk header, a
/// truncated chunk, a copy token reaching before the chunk's start, or bytes
/// left after the last chunk.
pub fn decompress(i: &[u8]) -> (r: Result<Vec<u8>, Error>)
    ensures
        match decompressed(i@) {
            None => r matches Err(Error::Decompressor),
            Some(d) => r matches Ok(v) && v@ == d,
        },
{
    if i.len() == 0 || i[0] != 1 {
        return Err(Error::Decompressor);
    }
    let mut out: Vec<u8> = Vec::new();
    let mut p: usize = 1;
    loop
        invariant
            1 <= p <= i@.len(),
            decompressed(i@) == match chunks_from(i@, p as int) {
                None => None,
                Some(rest) => Some(out@ + rest),
            },
        decreases i@.len() - p,
    {
        if i.len() - p < 2 {
            return Err(Error::Decompressor);
        }
        let h = read_le16(i, p);
        if (h >> 12) & 7 != 3 {
            return Err(Error::Decompressor);
        }
        assert(h & 0xfff <= 0xfff) by (bit_vector);
        let len: usize = (h & 0xfff) as usize + 1;
        if i.len() - p - 2 < len {
            return Err(Error::Decompressor);
        }
        let end = p + 2 + len;
        let body = &i[p + 2..end];
        let mut data = if (h >> 15) & 1 == 1 {
            match decompress_compressed(body) {
                None => {
                    return Err(Error::Decompressor);
                },
                Some(d) => d,
            }
        } else {
            copy_bytes(body)
        };
        let ghost before = out@;
        let ghost d = data@;
        out.append(&mut data);
        if end == i.len() {
            return Ok(out);
        }
        proof {
            match chunks_from(i@, end as int) {
                None => {},
                Some(rest) => {
                    assert(before + (d + rest) =~= out@ + rest);
                },
            }
        }
        p = end;
    }
}

/// A container whose first byte is not the signature `0x01` never decompresses.
pub proof fn bad_signature_rejected(s: Seq<u8>)
    requires
        s.len() == 0 || s[0] != 1u8,
    ensures
        decompressed(s) is None,
{
}

proof fn copy_run_len(out: Seq<u8>, offset: int, length: nat)
    ensures
        copy_run(out, offset, length).len() == out.len() + length,
    decreases length,
{
    if length > 0 {
        copy_run_len(out, offset, (length - 1) as nat);
    }
}

proof fn tokens_bounded(body: Seq<u8>, p: int, flag: u8, bit: u8, out: Seq<u8>)
    requires
        out.len() <= MAX_CHUNK_LEN,
    ensures
        tokens_from(body, p, flag, bit, out) matches Some(d) ==> d.len() <= MAX_CHUNK_LEN,
    decreases body.len() - p, 8 - bit,
{
    if p < 0 || bit > 8 || p >= body.len() {
    } else if bit == 8 {
        tokens_bounded(body, p + 1, body[p], 0, out);
    } else if flag_is_copy(flag, bit) {
        if p + 2 <= body.len() {
            let raw = le16(body, p);
            let bc = copy_bit_count(out.len() as int) as u16;
            let length = copy_length(raw, bc);
            let offset = copy_offset(raw, bc);
            if offset <= out.len() && out.len() + length <= MAX_CHUNK_LEN {
                copy_run_len(out, offset, length as nat);
                tokens_bounded(body, p + 2, flag, (bit + 1) as u8, copy_run(out, offset, length as nat));
            }
        }
    } else if out.len() + 1 <= MAX_CHUNK_LEN {
        tokens_bounded(body, p + 1, flag, (bit + 1) as u8, out.push(body[p]));
    }
}

/// A chunk never decompresses to more than 4096 bytes: a compressed body whose
/// tokens would produce more is rejected, and a raw body holds at most 4096.
pub proof fn chunk_output_bounded(body: Seq<u8>)
    ensures
        compressed_body(body) matches Some(d) ==> d.len() <= MAX_CHUNK_LEN,
{
    tokens_bounded(body, 0, 0, 8, Seq::empty());
}

/// Chunks are read the same way whatever precedes them: what the chunks from
/// `a.len() + q` of `a + t` decode to depends on `t` and `q` alone.
proof fn chunks_ignore_prefix(a: Seq<u8>, b: Seq<u8>, t: Seq<u8>, q: int)
    requires
        0 <= q,
    ensures
        chunks_from(a + t, a.len() + q) == chunks_from(b + t, b.len() + q),
    decreases t.len() - q,
{
    let sa = a + t;
    let sb = b + t;
    let pa = a.len() + q;
    let pb = b.len() + q;
    if pa + 2 <= sa.len() {
        assert(le16(sa, pa) == le16(sb, pb));
        let h = le16(sa, pa);
        let n = header_body_len(h);
        if pa + 2 + n <= sa.len() {
            assert(sa.subrange(pa + 2, pa + 2 + n) =~= sb.subrange(pb + 2, pb + 2 + n));
            if pa + 2 + n < sa.len() {
                chunks_ignore_prefix(a, b, t, q + 2 + n);
            }
        }
    }
}

/// Bytes after the last chunk of a well-formed container make the whole
/// container fail unless they form whole chunks themselves: decompression
/// never stops early and ignores a remainder.
pub proof fn trailing_bytes_rejected(c: Seq<u8>, t: Seq<u8>)
    requires
        decompressed(c) is Some,
        t.len() > 0,
        decompressed(seq![1u8] + t) is None,
    ensures
        decompressed(c + t) is None,
{
    assert((c + t)[0] == c[0]);
    assert((seq![1u8] + t)[0] == 1u8);
    chunks_ignore_prefix(c, seq![1u8], t, 0);
    trailing_chunks_rejected(c, t, 1);
}

proof fn trailing_chunks_rejected(c: Seq<u8>, t: Seq<u8>, p: int)
    requires
        1 <= p,
        chunks_from(c, p) is Some,
        t.len() > 0,
        chunks_from(c + t, c.len() as int) is None,
    ensures
        chunks_from(c + t, p) is None,
    decreases c.len() - p,
{
    let s = c + t;
    let h = le16(c, p);
    assert(le16(s, p) == h);
    let end = p + 2 + header_body_len(h);
    assert(s.subrange(p + 2, end) =~= c.subrange(p + 2, end));
    if end < c.len() {
        trailing_chunks_rejected(c, t, end);
    }
}

} // verus!
