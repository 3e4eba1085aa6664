//! Decoding of the compact size encoding of integers used in Bitcoin serialization.
//!
//! A value below `0xFD` is encoded as a single byte. Larger values are encoded as a marker byte
//! (`0xFD`, `0xFE` or `0xFF`) followed by the value as a little endian `u16`, `u32` or `u64`.
use vstd::prelude::*;

verus! {

/// `256` to the power `n`.
pub open spec fn pow256(n: nat) -> nat
    decreases n,
{
    if n == 0 {
        1
    } else {
        256 * pow256((n - 1) as nat)
    }
}

/// The unsigned integer whose little endian encoding is `bytes`.
pub open spec fn le_value(bytes: Seq<u8>) -> nat
    decreases bytes.len(),
{
    if bytes.len() == 0 {
        0
    } else {
        bytes[0] as nat + 256 * le_value(bytes.drop_first())
    }
}

/// The number of bytes of an encoding that starts with the byte `first`.
pub open spec fn encoding_width(first: u8) -> nat {
    if first == 0xFF {
        9
    } else if first == 0xFE {
        5
    } else if first == 0xFD {
        3
    } else {
        1
    }
}

/// The number of bytes of the minimal encoding of `value`.
pub open spec fn minimal_width(value: nat) -> nat {
    if value < 0xFD {
        1
    } else if value <= 0xFFFF {
        3
    } else if value <= 0xFFFF_FFFF {
        5
    } else {
        9
    }
}

/// The value encoded at the start of `bytes` (meaningful when `bytes` is long enough).
pub open spec fn encoded_value(bytes: Seq<u8>) -> nat {
    let w = encoding_width(bytes[0]);
    if w == 1 {
        bytes[0] as nat
    } else {
        le_value(bytes.subrange(1, w as int))
    }
}

/// `bytes` starts with a complete and minimal compact size encoding.
///
/// Well formed is: long enough for the width announced by the first byte, and minimal, that is
/// no shorter encoding exists for the value.
pub open spec fn starts_with_minimal_encoding(bytes: Seq<u8>) -> bool {
    &&& bytes.len() >= 1
    &&& bytes.len() >= encoding_width(bytes[0])
    &&& minimal_width(encoded_value(bytes)) == encoding_width(bytes[0])
}

proof fn lemma_le_value_bound(bytes: Seq<u8>)
    ensures
        le_value(bytes) < pow256(bytes.len()),
    decreases bytes.len(),
{
    if bytes.len() > 0 {
        lemma_le_value_bound(bytes.drop_first());
    }
}

proof fn lemma_pow256_values()
    ensures
        pow256(2) == 0x1_0000,
        pow256(4) == 0x1_0000_0000,
        pow256(8) == 0x1_0000_0000_0000_0000,
{
    reveal_with_fuel(pow256, 9);
}

proof fn lemma_pow256_monotone(a: nat, b: nat)
    requires
        a <= b,
    ensures
        pow256(a) <= pow256(b),
    decreases b,
{
    if a < b {
        lemma_pow256_monotone(a, (b - 1) as nat);
    }
}

/// Reads the little endian unsigned integer stored in `bytes[start..end]`.
fn read_le(bytes: &[u8], start: usize, end: usize) -> (v: u64)
    requires
        start <= end <= bytes@.len(),
        end - start <= 8,
    ensures
        v == le_value(bytes@.subrange(start as int, end as int)),
{
    let mut v: u64 = 0;
    let mut i: usize = end;
    proof {
        assert(bytes@.subrange(end as int, end as int) =~= Seq::<u8>::empty());
    }
    while i > start
        invariant
            start <= i <= end <= bytes@.len(),
            end - start <= 8,
            v == le_value(bytes@.subrange(i as int, end as int)),
        decreases i - start,
    {
        i = i - 1;
        let ghost tail = bytes@.subrange(i + 1, end as int);
        proof {
            assert(bytes@.subrange(i as int, end as int).drop_first() =~= tail);
            lemma_le_value_bound(tail);
            lemma_pow256_monotone(tail.len(), 7);
            lemma_pow256_values();
            reveal_with_fuel(pow256, 8);
        }
        v = bytes[i] as u64 + v * 256;
    }
    v
}

/// Gets the compact size encoded value from `slice` and moves `slice` past the encoding.
///
/// The caller guarantees that the encoding is well formed: long enough, and minimal (referred
/// to as "canonical" in Core).
pub fn compact_size_decode(slice: &mut &[u8]) -> (v: u64)
    requires
        starts_with_minimal_encoding(old(slice)@),
    ensures
        v == encoded_value(old(slice)@),
        final(slice)@ == old(slice)@.subrange(
            encoding_width(old(slice)@[0]) as int,
            old(slice)@.len() as int,
        ),
        old(slice)@.len() - final(slice)@.len() == minimal_width(v as nat),
{
    let s: &[u8] = *slice;
    let first = s[0];
    let len = s.len();
    let (width, v): (usize, u64) = if first == 0xFF {
        (9, read_le(s, 1, 9))
    } else if first == 0xFE {
        (5, read_le(s, 1, 5))
    } else if first == 0xFD {
        (3, read_le(s, 1, 3))
    } else {
        (1, first as u64)
    };
    *slice = &s[width..len];
    v
}

/// The `n` byte little endian encoding of `value` (its low `n` bytes).
pub open spec fn le_bytes(value: nat, n: nat) -> Seq<u8>
    decreases n,
{
    if n == 0 {
        Seq::empty()
    } else {
        seq![(value % 256) as u8] + le_bytes(value / 256, (n - 1) as nat)
    }
}

/// The minimal compact size encoding of `value`: one byte below `0xFD`, else the marker of the
/// smallest of `u16`, `u32`, `u64` that holds it, then the value little endian.
pub open spec fn minimal_encoding(value: nat) -> Seq<u8> {
    if value < 0xFD {
        seq![value as u8]
    } else if value <= 0xFFFF {
        seq![0xFDu8] + le_bytes(value, 2)
    } else if value <= 0xFFFF_FFFF {
        seq![0xFEu8] + le_bytes(value, 4)
    } else {
        seq![0xFFu8] + le_bytes(value, 8)
    }
}

proof fn lemma_le_bytes_value(value: nat, n: nat)
    requires
        value < pow256(n),
    ensures
        le_bytes(value, n).len() == n,
        le_value(le_bytes(value, n)) == value,
    decreases n,
{
    if n > 0 {
        let rest = le_bytes(value / 256, (n - 1) as nat);
        let p = pow256((n - 1) as nat);
        assert(value / 256 < p) by (nonlinear_arith)
            requires
                value < 256 * p,
        ;
        lemma_le_bytes_value(value / 256, (n - 1) as nat);
        assert(le_bytes(value, n).drop_first() =~= rest);
        assert(value == value % 256 + 256 * (value / 256)) by (nonlinear_arith);
    }
}

proof fn lemma_value_le_bytes(bytes: Seq<u8>)
    ensures
        le_bytes(le_value(bytes), bytes.len()) == bytes,
    decreases bytes.len(),
{
    if bytes.len() > 0 {
        let tail = bytes.drop_first();
        let v = le_value(bytes);
        lemma_value_le_bytes(tail);
        assert(v % 256 == bytes[0] as nat && v / 256 == le_value(tail)) by (nonlinear_arith)
            requires
                v == bytes[0] as nat + 256 * le_value(tail),
                0 <= bytes[0] < 256,
        ;
        assert(le_bytes(v, bytes.len()) =~= bytes);
    }
}

/// A compact size encoding reads back what it encodes: for every `u64` value, its minimal
/// encoding, whatever bytes follow it, is a well formed minimal encoding of that value, as wide
/// as the value's minimal width.
pub proof fn lemma_minimal_encoding_decodes(value: u64, rest: Seq<u8>)
    ensures
        starts_with_minimal_encoding(minimal_encoding(value as nat) + rest),
        encoded_value(minimal_encoding(value as nat) + rest) == value,
        encoding_width((minimal_encoding(value as nat) + rest)[0]) == minimal_width(value as nat),
        minimal_encoding(value as nat).len() == minimal_width(value as nat),
{
    let v = value as nat;
    let e = minimal_encoding(v);
    let b = e + rest;
    lemma_pow256_values();
    if v < 0xFD {
        assert(b[0] == v as u8);
    } else {
        let n: nat = if v <= 0xFFFF { 2 } else if v <= 0xFFFF_FFFF { 4 } else { 8 };
        lemma_le_bytes_value(v, n);
        assert(b.subrange(1, n + 1 as int) =~= le_bytes(v, n));
    }
}

/// Minimal encodings are unique: the well formed minimal encoding at the start of `bytes` is
/// exactly the minimal encoding of the value it holds.
pub proof fn lemma_minimal_encoding_unique(bytes: Seq<u8>)
    requires
        starts_with_minimal_encoding(bytes),
    ensures
        bytes.subrange(0, encoding_width(bytes[0]) as int) == minimal_encoding(encoded_value(bytes)),
{
    let w = encoding_width(bytes[0]);
    let v = encoded_value(bytes);
    if w == 1 {
        assert(bytes.subrange(0, 1) =~= seq![v as u8]);
    } else {
        let body = bytes.subrange(1, w as int);
        lemma_value_le_bytes(body);
        assert(bytes.subrange(0, w as int) =~= seq![bytes[0]] + body);
    }
}

} // verus!
