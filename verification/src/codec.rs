//! Big-endian encoding of log indices.
//!
//! Log entries are persisted under an 8-byte big-endian key so that the
//! byte order of keys equals the numeric order of indices.

use vstd::prelude::*;

verus! {

/// The 8-byte big-endian encoding of a 64-bit index.
pub open spec fn be_bytes_of_u64(x: u64) -> Seq<u8> {
    seq![
        (x >> 56) as u8,
        (x >> 48) as u8,
        (x >> 40) as u8,
        (x >> 32) as u8,
        (x >> 24) as u8,
        (x >> 16) as u8,
        (x >> 8) as u8,
        x as u8,
    ]
}

/// The 64-bit index read back from 8 big-endian bytes.
pub open spec fn u64_of_be_bytes(s: Seq<u8>) -> u64
    recommends
        s.len() >= 8,
{
    (((s[0] as u64) << 56) | ((s[1] as u64) << 48) | ((s[2] as u64) << 40) | ((s[3] as u64) << 32)
        | ((s[4] as u64) << 24) | ((s[5] as u64) << 16) | ((s[6] as u64) << 8) | (s[7] as u64))
}

/// Converts an index to the byte key it is stored under.
pub fn id_to_bin(id: u64) -> (r: Vec<u8>)
    ensures
        r@ == be_bytes_of_u64(id),
        r@.len() == 8,
{
    let mut buf: Vec<u8> = Vec::new();
    buf.push((id >> 56) as u8);
    buf.push((id >> 48) as u8);
    buf.push((id >> 40) as u8);
    buf.push((id >> 32) as u8);
    buf.push((id >> 24) as u8);
    buf.push((id >> 16) as u8);
    buf.push((id >> 8) as u8);
    buf.push(id as u8);
    proof {
        assert(buf@ =~= be_bytes_of_u64(id));
    }
    buf
}

/// Reads an index back from the first 8 bytes of a stored key.
pub fn bin_to_id(buf: &[u8]) -> (r: u64)
    requires
        buf@.len() >= 8,
    ensures
        r == u64_of_be_bytes(buf@),
{
    (((buf[0] as u64) << 56) | ((buf[1] as u64) << 48) | ((buf[2] as u64) << 40) | ((buf[3]
        as u64) << 32) | ((buf[4] as u64) << 24) | ((buf[5] as u64) << 16) | ((buf[6] as u64) << 8)
        | (buf[7] as u64))
}

/// Decoding a key written by `be_bytes_of_u64` gives back the index it
/// was written for: the key encoding is lossless.
pub proof fn lemma_be_roundtrip(x: u64)
    ensures
        u64_of_be_bytes(be_bytes_of_u64(x)) == x,
{
    let s = be_bytes_of_u64(x);
    let b0 = s[0];
    let b1 = s[1];
    let b2 = s[2];
    let b3 = s[3];
    let b4 = s[4];
    let b5 = s[5];
    let b6 = s[6];
    let b7 = s[7];
    assert((((b0 as u64) << 56) | ((b1 as u64) << 48) | ((b2 as u64) << 40) | ((b3 as u64) << 32)
        | ((b4 as u64) << 24) | ((b5 as u64) << 16) | ((b6 as u64) << 8) | (b7 as u64)) == x)
        by (bit_vector)
        requires
            b0 == (x >> 56) as u8,
            b1 == (x >> 48) as u8,
            b2 == (x >> 40) as u8,
            b3 == (x >> 32) as u8,
            b4 == (x >> 24) as u8,
            b5 == (x >> 16) as u8,
            b6 == (x >> 8) as u8,
            b7 == x as u8,
    ;
}


/// Lexicographic order on equal-length byte strings: the strings agree
/// on a prefix and then the first differs downward.
pub open spec fn bytes_lex_lt(a: Seq<u8>, b: Seq<u8>) -> bool {
    exists|i: int|
        0 <= i < a.len() && a.subrange(0, i) == b.subrange(0, i) && a[i] < #[trigger] b[i]
}

/// Law: the byte order of keys equals the numeric order of indices —
/// the reason entries are keyed big-endian, so that iterating the
/// keyspace walks the log in index order.
pub proof fn lemma_be_order(x: u64, y: u64)
    requires
        x < y,
    ensures
        bytes_lex_lt(be_bytes_of_u64(x), be_bytes_of_u64(y)),
{
    let a = be_bytes_of_u64(x);
    let b = be_bytes_of_u64(y);
    if a[0] != b[0] {
        assert(((x >> 56) as u8) < ((y >> 56) as u8)) by (bit_vector)
            requires
                (x >> 56) as u8 != (y >> 56) as u8,
                x < y,
        ;
        assert(0 <= 0 < a.len() && a.subrange(0, 0) == b.subrange(0, 0) && a[0] < b[0]);
    } else if a[1] != b[1] {
        assert(((x >> 48) as u8) < ((y >> 48) as u8)) by (bit_vector)
            requires
                (x >> 56) as u8 == (y >> 56) as u8,
                (x >> 48) as u8 != (y >> 48) as u8,
                x < y,
        ;
        assert(a.subrange(0, 1) =~= b.subrange(0, 1));
        assert(0 <= 1 < a.len() && a.subrange(0, 1) == b.subrange(0, 1) && a[1] < b[1]);
    } else if a[2] != b[2] {
        assert(((x >> 40) as u8) < ((y >> 40) as u8)) by (bit_vector)
            requires
                (x >> 56) as u8 == (y >> 56) as u8,
                (x >> 48) as u8 == (y >> 48) as u8,
                (x >> 40) as u8 != (y >> 40) as u8,
                x < y,
        ;
        assert(a.subrange(0, 2) =~= b.subrange(0, 2));
        assert(0 <= 2 < a.len() && a.subrange(0, 2) == b.subrange(0, 2) && a[2] < b[2]);
    } else if a[3] != b[3] {
        assert(((x >> 32) as u8) < ((y >> 32) as u8)) by (bit_vector)
            requires
                (x >> 56) as u8 == (y >> 56) as u8,
                (x >> 48) as u8 == (y >> 48) as u8,
                (x >> 40) as u8 == (y >> 40) as u8,
                (x >> 32) as u8 != (y >> 32) as u8,
                x < y,
        ;
        assert(a.subrange(0, 3) =~= b.subrange(0, 3));
        assert(0 <= 3 < a.len() && a.subrange(0, 3) == b.subrange(0, 3) && a[3] < b[3]);
    } else if a[4] != b[4] {
        assert(((x >> 24) as u8) < ((y >> 24) as u8)) by (bit_vector)
            requires
                (x >> 56) as u8 == (y >> 56) as u8,
                (x >> 48) as u8 == (y >> 48) as u8,
                (x >> 40) as u8 == (y >> 40) as u8,
                (x >> 32) as u8 == (y >> 32) as u8,
                (x >> 24) as u8 != (y >> 24) as u8,
                x < y,
        ;
        assert(a.subrange(0, 4) =~= b.subrange(0, 4));
        assert(0 <= 4 < a.len() && a.subrange(0, 4) == b.subrange(0, 4) && a[4] < b[4]);
    } else if a[5] != b[5] {
        assert(((x >> 16) as u8) < ((y >> 16) as u8)) by (bit_vector)
            requires
                (x >> 56) as u8 == (y >> 56) as u8,
                (x >> 48) as u8 == (y >> 48) as u8,
                (x >> 40) as u8 == (y >> 40) as u8,
                (x >> 32) as u8 == (y >> 32) as u8,
                (x >> 24) as u8 == (y >> 24) as u8,
                (x >> 16) as u8 != (y >> 16) as u8,
                x < y,
        ;
        assert(a.subrange(0, 5) =~= b.subrange(0, 5));
        assert(0 <= 5 < a.len() && a.subrange(0, 5) == b.subrange(0, 5) && a[5] < b[5]);
    } else if a[6] != b[6] {
        assert(((x >> 8) as u8) < ((y >> 8) as u8)) by (bit_vector)
            requires
                (x >> 56) as u8 == (y >> 56) as u8,
                (x >> 48) as u8 == (y >> 48) as u8,
                (x >> 40) as u8 == (y >> 40) as u8,
                (x >> 32) as u8 == (y >> 32) as u8,
                (x >> 24) as u8 == (y >> 24) as u8,
                (x >> 16) as u8 == (y >> 16) as u8,
                (x >> 8) as u8 != (y >> 8) as u8,
                x < y,
        ;
        assert(a.subrange(0, 6) =~= b.subrange(0, 6));
        assert(0 <= 6 < a.len() && a.subrange(0, 6) == b.subrange(0, 6) && a[6] < b[6]);
    } else if a[7] != b[7] {
        assert((x as u8) < (y as u8)) by (bit_vector)
            requires
                (x >> 56) as u8 == (y >> 56) as u8,
                (x >> 48) as u8 == (y >> 48) as u8,
                (x >> 40) as u8 == (y >> 40) as u8,
                (x >> 32) as u8 == (y >> 32) as u8,
                (x >> 24) as u8 == (y >> 24) as u8,
                (x >> 16) as u8 == (y >> 16) as u8,
                (x >> 8) as u8 == (y >> 8) as u8,
                x as u8 != y as u8,
                x < y,
        ;
        assert(a.subrange(0, 7) =~= b.subrange(0, 7));
        assert(0 <= 7 < a.len() && a.subrange(0, 7) == b.subrange(0, 7) && a[7] < b[7]);
    } else {
        assert(x == y) by (bit_vector)
            requires
                (x >> 56) as u8 == (y >> 56) as u8,
                (x >> 48) as u8 == (y >> 48) as u8,
                (x >> 40) as u8 == (y >> 40) as u8,
                (x >> 32) as u8 == (y >> 32) as u8,
                (x >> 24) as u8 == (y >> 24) as u8,
                (x >> 16) as u8 == (y >> 16) as u8,
                (x >> 8) as u8 == (y >> 8) as u8,
                x as u8 == y as u8,
        ;
    }
}

/// Distinct indices get distinct keys.
pub proof fn lemma_be_injective(x: u64, y: u64)
    requires
        be_bytes_of_u64(x) == be_bytes_of_u64(y),
    ensures
        x == y,
{
    lemma_be_roundtrip(x);
    lemma_be_roundtrip(y);
}

} // verus!
