//! 256-bit unsigned integers, held as four little-endian 64-bit limbs, and
//! the operations the proof of work needs from `primitive_types::U256`.
use parity_scale_codec::{Decode, Encode};
use primitive_types::U256;
use vstd::prelude::*;

verus! {

/// 2^64.
pub open spec fn limb_base() -> nat {
    0x1_0000_0000_0000_0000nat
}

/// 2^256, one more than the largest value a `U256` holds.
pub open spec fn u256_modulus() -> nat {
    0x1_0000_0000_0000_0000_0000_0000_0000_0000_0000_0000_0000_0000_0000_0000_0000_0000nat
}

/// The number that four little-endian limbs stand for.
pub open spec fn u256_value(a: [u64; 4]) -> nat {
    a[0] as nat + limb_base() * (a[1] as nat + limb_base() * (a[2] as nat + limb_base()
        * a[3] as nat))
}

/// The number that a big-endian byte string stands for.
pub open spec fn be_value(s: Seq<u8>) -> nat
    decreases s.len(),
{
    if s.len() == 0 {
        0
    } else {
        be_value(s.drop_last()) * 256 + s.last() as nat
    }
}

/// The eight little-endian bytes of a limb.
pub open spec fn u64_le_bytes(x: u64) -> Seq<u8> {
    seq![
        x as u8,
        (x >> 8u64) as u8,
        (x >> 16u64) as u8,
        (x >> 24u64) as u8,
        (x >> 32u64) as u8,
        (x >> 40u64) as u8,
        (x >> 48u64) as u8,
        (x >> 56u64) as u8,
    ]
}

/// The limb read little-endian from the eight bytes of `s` that start at `at`.
pub open spec fn u64_from_le_bytes(s: Seq<u8>, at: int) -> u64 {
    (s[at] as u64) | ((s[at + 1] as u64) << 8u64) | ((s[at + 2] as u64) << 16u64) | ((s[at
        + 3] as u64) << 24u64) | ((s[at + 4] as u64) << 32u64) | ((s[at + 5] as u64) << 40u64)
        | ((s[at + 6] as u64) << 48u64) | ((s[at + 7] as u64) << 56u64)
}

/// The SCALE encoding of a `U256`: its 32 bytes, least significant first.
pub open spec fn u256_le_bytes(a: [u64; 4]) -> Seq<u8> {
    u64_le_bytes(a[0]) + u64_le_bytes(a[1]) + u64_le_bytes(a[2]) + u64_le_bytes(a[3])
}

/// The `U256` whose little-endian bytes are the first 32 bytes of `s`.
pub open spec fn u256_from_le_bytes(s: Seq<u8>) -> [u64; 4] {
    [
        u64_from_le_bytes(s, 0),
        u64_from_le_bytes(s, 8),
        u64_from_le_bytes(s, 16),
        u64_from_le_bytes(s, 24),
    ]
}

/// `U256::from(&[u8])` (uint), which reads a slice of at most 32 bytes as a
/// big-endian number; the contract claims that the limbs stand for that number.
#[verifier::external_body]
pub(crate) fn u256_from_be_bytes(bytes: &[u8; 32]) -> (r: [u64; 4])
    ensures
        u256_value(r) == be_value(bytes@),
{
    U256::from(&bytes[..]).0
}

/// `U256::overflowing_mul` (uint): the claim is that it returns the product
/// modulo 2^256, and `true` exactly when the full product is 2^256 or more.
#[verifier::external_body]
pub(crate) fn u256_overflowing_mul(a: [u64; 4], b: [u64; 4]) -> (r: ([u64; 4], bool))
    ensures
        u256_value(r.0) == (u256_value(a) * u256_value(b)) % u256_modulus(),
        r.1 == (u256_value(a) * u256_value(b) >= u256_modulus()),
{
    let (product, overflowed) = U256(a).overflowing_mul(U256(b));
    (product.0, overflowed)
}

/// `<U256 as Encode>::encode` (impl-codec): the claim is that the encoding is
/// the 32 bytes of the limbs, each limb little-endian, lowest limb first.
#[verifier::external_body]
pub(crate) fn u256_encode(a: [u64; 4]) -> (r: Vec<u8>)
    ensures
        r@ == u256_le_bytes(a),
{
    U256(a).encode()
}

/// `<U256 as Decode>::decode` (impl-codec) on a byte slice: the claim is that
/// it succeeds exactly when the slice holds at least 32 bytes, and then reads
/// the first 32 of them little-endian.
#[verifier::external_body]
pub(crate) fn u256_decode(bytes: &[u8]) -> (r: Option<[u64; 4]>)
    ensures
        r.is_some() == (bytes@.len() >= 32),
        r matches Some(a) ==> a == u256_from_le_bytes(bytes@),
{
    match U256::decode(&mut &bytes[..]) {
        Ok(value) => Some(value.0),
        Err(_) => None,
    }
}

/// Reading back the little-endian bytes of a limb gives the limb.
pub proof fn lemma_u64_le_roundtrip(x: u64)
    ensures
        u64_from_le_bytes(u64_le_bytes(x), 0) == x,
{
    let b = u64_le_bytes(x);
    assert(b[0] == x as u8 && b[1] == (x >> 8u64) as u8 && b[2] == (x >> 16u64) as u8 && b[3]
        == (x >> 24u64) as u8 && b[4] == (x >> 32u64) as u8 && b[5] == (x >> 40u64) as u8 && b[6]
        == (x >> 48u64) as u8 && b[7] == (x >> 56u64) as u8);
    assert(((x as u8) as u64) | ((((x >> 8u64) as u8) as u64) << 8u64) | ((((x >> 16u64) as u8)
        as u64) << 16u64) | ((((x >> 24u64) as u8) as u64) << 24u64) | ((((x >> 32u64) as u8)
        as u64) << 32u64) | ((((x >> 40u64) as u8) as u64) << 40u64) | ((((x >> 48u64) as u8)
        as u64) << 48u64) | ((((x >> 56u64) as u8) as u64) << 56u64) == x) by (bit_vector);
}

/// Decoding the encoding of a `U256` gives the same limbs back.
pub proof fn lemma_u256_le_roundtrip(a: [u64; 4])
    ensures
        u256_le_bytes(a).len() == 32,
        u256_from_le_bytes(u256_le_bytes(a)) == a,
{
    let s = u256_le_bytes(a);
    lemma_u64_le_roundtrip(a[0]);
    lemma_u64_le_roundtrip(a[1]);
    lemma_u64_le_roundtrip(a[2]);
    lemma_u64_le_roundtrip(a[3]);
    assert forall|j: int, k: int| 0 <= j < 4 && 0 <= k < 8 implies s[8 * j + k] == u64_le_bytes(
        a[j],
    )[k] by {}
    assert(u256_from_le_bytes(s)[0] == a[0]);
    assert(u256_from_le_bytes(s)[1] == a[1]);
    assert(u256_from_le_bytes(s)[2] == a[2]);
    assert(u256_from_le_bytes(s)[3] == a[3]);
    assert(u256_from_le_bytes(s) =~= a);
}

/// Writing out the limb read from eight bytes gives those bytes back.
pub proof fn lemma_u64_bytes_roundtrip(s: Seq<u8>, at: int)
    requires
        0 <= at,
        at + 8 <= s.len(),
    ensures
        u64_le_bytes(u64_from_le_bytes(s, at)) == s.subrange(at, at + 8),
{
    let (b0, b1, b2, b3, b4, b5, b6, b7) = (
        s[at],
        s[at + 1],
        s[at + 2],
        s[at + 3],
        s[at + 4],
        s[at + 5],
        s[at + 6],
        s[at + 7],
    );
    let x = u64_from_le_bytes(s, at);
    assert(x == (b0 as u64) | ((b1 as u64) << 8u64) | ((b2 as u64) << 16u64) | ((b3 as u64)
        << 24u64) | ((b4 as u64) << 32u64) | ((b5 as u64) << 40u64) | ((b6 as u64) << 48u64) | ((
    b7 as u64) << 56u64));
    assert(x as u8 == b0 && (x >> 8u64) as u8 == b1 && (x >> 16u64) as u8 == b2 && (x >> 24u64)
        as u8 == b3 && (x >> 32u64) as u8 == b4 && (x >> 40u64) as u8 == b5 && (x >> 48u64) as u8
        == b6 && (x >> 56u64) as u8 == b7) by (bit_vector)
        requires
            x == (b0 as u64) | ((b1 as u64) << 8u64) | ((b2 as u64) << 16u64) | ((b3 as u64)
                << 24u64) | ((b4 as u64) << 32u64) | ((b5 as u64) << 40u64) | ((b6 as u64)
                << 48u64) | ((b7 as u64) << 56u64),
    ;
    assert(u64_le_bytes(x) =~= s.subrange(at, at + 8));
}

/// Encoding the limbs read from 32 bytes gives those 32 bytes back.
pub proof fn lemma_u256_bytes_roundtrip(s: Seq<u8>)
    requires
        s.len() == 32,
    ensures
        u256_le_bytes(u256_from_le_bytes(s)) == s,
{
    lemma_u64_bytes_roundtrip(s, 0);
    lemma_u64_bytes_roundtrip(s, 8);
    lemma_u64_bytes_roundtrip(s, 16);
    lemma_u64_bytes_roundtrip(s, 24);
    assert(s =~= s.subrange(0, 8) + s.subrange(8, 16) + s.subrange(16, 24) + s.subrange(24, 32));
}

/// 256 to the power `n`.
pub open spec fn byte_power(n: nat) -> nat
    decreases n,
{
    if n == 0 {
        1
    } else {
        256 * byte_power((n - 1) as nat)
    }
}

/// A big-endian string of `n` bytes stands for a number below 256^n.
pub proof fn lemma_be_value_bound(s: Seq<u8>)
    ensures
        be_value(s) < byte_power(s.len()),
    decreases s.len(),
{
    if s.len() > 0 {
        lemma_be_value_bound(s.drop_last());
        let p = byte_power(s.drop_last().len());
        let v = be_value(s.drop_last());
        assert(v * 256 + s.last() < p * 256) by (nonlinear_arith)
            requires
                v < p,
                s.last() < 256,
        ;
    }
}

/// Eight more bytes multiply the range by 2^64.
proof fn lemma_byte_power_add8(n: nat)
    ensures
        byte_power(n + 8) == byte_power(n) * limb_base(),
    decreases n,
{
    if n == 0 {
        reveal_with_fuel(byte_power, 9);
    } else {
        let m = (n - 1) as nat;
        lemma_byte_power_add8(m);
        assert(byte_power(n + 8) == 256 * byte_power(m + 8));
        assert(byte_power(n) == 256 * byte_power(m));
        let (a, b) = (byte_power(m), limb_base());
        assert(256 * (a * b) == (256 * a) * b) by (nonlinear_arith);
    }
}

/// 256^32 is 2^256.
pub proof fn lemma_byte_power_32()
    ensures
        byte_power(32) == u256_modulus(),
{
    lemma_byte_power_add8(0);
    lemma_byte_power_add8(8);
    lemma_byte_power_add8(16);
    lemma_byte_power_add8(24);
    assert(byte_power(0) == 1);
    assert(byte_power(8) == limb_base());
    assert(byte_power(16) == limb_base() * limb_base());
    assert(byte_power(24) == limb_base() * limb_base() * limb_base());
    assert(byte_power(32) == limb_base() * limb_base() * limb_base() * limb_base());
    assert(0x1_0000_0000_0000_0000nat * 0x1_0000_0000_0000_0000nat
        == 0x1_0000_0000_0000_0000_0000_0000_0000_0000nat);
    assert(0x1_0000_0000_0000_0000_0000_0000_0000_0000nat * 0x1_0000_0000_0000_0000nat
        == 0x1_0000_0000_0000_0000_0000_0000_0000_0000_0000_0000_0000_0000nat);
    assert(0x1_0000_0000_0000_0000_0000_0000_0000_0000_0000_0000_0000_0000nat
        * 0x1_0000_0000_0000_0000nat == u256_modulus());
}

} // verus!
