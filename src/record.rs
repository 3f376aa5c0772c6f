//! Tagged-record primitives over a byte cursor.
//!
//! A cursor is a position `p` into the input; every reader takes the input and
//! a position and returns what it read together with the position after it.
//! The spec functions here describe each reader on `Seq<u8>` with `int`
//! positions, and return `None` wherever the input does not hold the record.
use crate::decompress::le16;
use vstd::prelude::*;

verus! {

/// The little-endian 32-bit value at position `p` of `s`.
pub open spec fn le32(s: Seq<u8>, p: int) -> u32 {
    (s[p] as int + 256 * s[p + 1] as int + 65536 * s[p + 2] as int + 16777216
        * s[p + 3] as int) as u32
}

/// Whether the 16-bit tag `id` stands at position `p`.
pub open spec fn has_tag(s: Seq<u8>, p: int, id: u16) -> bool {
    0 <= p && p + 2 <= s.len() && le16(s, p) == id
}

pub open spec fn u16_at(s: Seq<u8>, p: int) -> Option<u16> {
    if 0 <= p && p + 2 <= s.len() {
        Some(le16(s, p))
    } else {
        None
    }
}

pub open spec fn u32_at(s: Seq<u8>, p: int) -> Option<u32> {
    if 0 <= p && p + 4 <= s.len() {
        Some(le32(s, p))
    } else {
        None
    }
}

/// Whether the `n` bytes from position `p` are all zero.
pub open spec fn zeros_at(s: Seq<u8>, p: int, n: int) -> bool {
    0 <= p && p + n <= s.len() && forall|k: int| p <= k < p + n ==> s[k] == 0u8
}

/// A 32-bit length followed by that many bytes.
pub open spec fn sized_at(s: Seq<u8>, p: int) -> Option<(Seq<u8>, int)> {
    match u32_at(s, p) {
        None => None,
        Some(n) => if p + 4 + n <= s.len() {
            Some((s.subrange(p + 4, p + 4 + n), p + 4 + n))
        } else {
            None
        },
    }
}

/// Tag `id` followed by a length-prefixed byte string.
pub open spec fn bytes_record(s: Seq<u8>, p: int, id: u16) -> Option<(Seq<u8>, int)> {
    if has_tag(s, p, id) {
        sized_at(s, p + 2)
    } else {
        None
    }
}

/// Tag `id`, a size field that must be 4, then a 32-bit value.
pub open spec fn u32_record(s: Seq<u8>, p: int, id: u16) -> Option<(u32, int)> {
    if has_tag(s, p, id) && u32_at(s, p + 2) == Some(4u32) && p + 10 <= s.len() {
        Some((le32(s, p + 6), p + 10))
    } else {
        None
    }
}

/// Tag `id`, a size field that must be 2, then a 16-bit value.
pub open spec fn u16_record(s: Seq<u8>, p: int, id: u16) -> Option<(u16, int)> {
    if has_tag(s, p, id) && u32_at(s, p + 2) == Some(2u32) && p + 8 <= s.len() {
        Some((le16(s, p + 6), p + 8))
    } else {
        None
    }
}

/// Reads the 16-bit little-endian value at `p`.
pub fn read_u16(s: &[u8], p: usize) -> (r: Option<u16>)
    requires
        p <= s.len(),
    ensures
        r == u16_at(s@, p as int),
{
    if s.len() - p < 2 {
        None
    } else {
        Some(s[p] as u16 + (s[p + 1] as u16) * 256)
    }
}

/// Reads the 32-bit little-endian value at `p`.
pub fn read_u32(s: &[u8], p: usize) -> (r: Option<u32>)
    requires
        p <= s.len(),
    ensures
        r == u32_at(s@, p as int),
{
    if s.len() - p < 4 {
        None
    } else {
        Some(
            s[p] as u32 + (s[p + 1] as u32) * 256 + (s[p + 2] as u32) * 65536 + (s[p + 3] as u32)
                * 16777216,
        )
    }
}

/// Whether tag `id` stands at `p`; the caller steps over it.
pub fn expect_tag(s: &[u8], p: usize, id: u16) -> (r: bool)
    requires
        p <= s.len(),
    ensures
        r == has_tag(s@, p as int, id),
{
    match read_u16(s, p) {
        Some(v) => v == id,
        None => false,
    }
}

/// Whether the `n` bytes from `p` are all zero.
pub fn expect_zeros(s: &[u8], p: usize, n: usize) -> (r: bool)
    requires
        p <= s.len(),
    ensures
        r == zeros_at(s@, p as int, n as int),
{
    if s.len() - p < n {
        return false;
    }
    let mut k: usize = 0;
    while k < n
        invariant
            k <= n,
            p + n <= s.len(),
            forall|j: int| p <= j < p + k ==> s@[j] == 0u8,
        decreases n - k,
    {
        if s[p + k] != 0 {
            return false;
        }
        k = k + 1;
    }
    true
}

/// Reads a 32-bit length and the bytes it announces.
pub fn read_sized<'a>(s: &'a [u8], p: usize) -> (r: Option<(&'a [u8], usize)>)
    requires
        p <= s.len(),
    ensures
        match sized_at(s@, p as int) {
            None => r is None,
            Some((b, q)) => r matches Some((v, e)) && v@ == b && e == q && e <= s@.len(),
        },
{
    let n = match read_u32(s, p) {
        Some(n) => n as usize,
        None => return None,
    };
    if s.len() - p - 4 < n {
        return None;
    }
    let end = p + 4 + n;
    Some((&s[p + 4..end], end))
}

/// Reads tag `id` followed by a length-prefixed byte string.
pub fn read_bytes_record<'a>(s: &'a [u8], p: usize, id: u16) -> (r: Option<(&'a [u8], usize)>)
    requires
        p <= s.len(),
    ensures
        match bytes_record(s@, p as int, id) {
            None => r is None,
            Some((b, q)) => r matches Some((v, e)) && v@ == b && e == q && e <= s@.len(),
        },
{
    if !expect_tag(s, p, id) {
        return None;
    }
    read_sized(s, p + 2)
}

/// Reads tag `id`, the fixed size 4 and a 32-bit value.
pub fn read_u32_record(s: &[u8], p: usize, id: u16) -> (r: Option<(u32, usize)>)
    requires
        p <= s.len(),
    ensures
        match u32_record(s@, p as int, id) {
            None => r is None,
            Some((v, q)) => r == Some((v, q as usize)) && q <= s@.len(),
        },
{
    if !expect_tag(s, p, id) {
        return None;
    }
    match read_u32(s, p + 2) {
        Some(4) => {},
        _ => return None,
    }
    match read_u32(s, p + 6) {
        Some(v) => Some((v, p + 10)),
        None => None,
    }
}

/// Reads tag `id`, the fixed size 2 and a 16-bit value.
pub fn read_u16_record(s: &[u8], p: usize, id: u16) -> (r: Option<(u16, usize)>)
    requires
        p <= s.len(),
    ensures
        match u16_record(s@, p as int, id) {
            None => r is None,
            Some((v, q)) => r == Some((v, q as usize)) && q <= s@.len(),
        },
{
    if !expect_tag(s, p, id) {
        return None;
    }
    match read_u32(s, p + 2) {
        Some(2) => {},
        _ => return None,
    }
    match read_u16(s, p + 6) {
        Some(v) => Some((v, p + 8)),
        None => None,
    }
}

} // verus!
