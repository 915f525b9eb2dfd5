//! The proof-of-work algorithm: the seal format, the work that a seal is
//! judged by, and the check that a block's seal passes.
use crate::hashing::{sha3_256, sha3_256_digest};
use crate::uint::{
    be_value, lemma_be_value_bound, lemma_byte_power_32, lemma_u256_bytes_roundtrip,
    lemma_u256_le_roundtrip, u256_decode, u256_encode, u256_from_be_bytes, u256_from_le_bytes,
    u256_le_bytes, u256_modulus, u256_overflowing_mul, u256_value,
};
use std::sync::Arc;
use vstd::prelude::*;

verus! {

/// The SCALE encoding of a seal with this nonce and difficulty.
pub open spec fn seal_bytes(nonce: Seq<u8>, difficulty: [u64; 4]) -> Seq<u8> {
    nonce + u256_le_bytes(difficulty)
}

/// The SCALE encoding of the record that is hashed into a seal's work.
pub open spec fn compute_bytes(pre_hash: Seq<u8>, nonce: Seq<u8>, difficulty: [u64; 4]) -> Seq<
    u8,
> {
    pre_hash + nonce + u256_le_bytes(difficulty)
}

/// Work passes a difficulty when their product still fits in 256 bits.
pub open spec fn work_meets(work: nat, difficulty: [u64; 4]) -> bool {
    work * u256_value(difficulty) < u256_modulus()
}

/// The work of a nonce: the SHA3-256 digest of the encoded record, read as a
/// big-endian number.
pub open spec fn work_of(pre_hash: Seq<u8>, nonce: Seq<u8>, difficulty: [u64; 4]) -> nat {
    be_value(sha3_256_digest(compute_bytes(pre_hash, nonce, difficulty)))
}

/// Whether a block whose pre-hash is `pre_hash` and whose seal bytes are
/// `seal` passes at `difficulty`: the seal decodes, and the work of its nonce
/// passes the difficulty.
pub open spec fn seal_accepted(pre_hash: Seq<u8>, seal: Seq<u8>, difficulty: [u64; 4]) -> bool {
    &&& seal.len() >= 64
    &&& work_meets(work_of(pre_hash, seal.subrange(0, 32), difficulty), difficulty)
}

/// Appends bytes to a buffer.
fn push_bytes(out: &mut Vec<u8>, bytes: &[u8])
    ensures
        final(out)@ == old(out)@ + bytes@,
{
    let ghost start = out@;
    let n = bytes.len();
    for i in 0..n
        invariant
            n == bytes@.len(),
            out@ == start + bytes@.subrange(0, i as int),
    {
        out.push(bytes[i]);
        assert(bytes@.subrange(0, i + 1) == bytes@.subrange(0, i as int).push(bytes@[i as int]));
    }
    assert(bytes@.subrange(0, n as int) == bytes@);
}

/// The encoding of the record for a pre-hash, nonce and difficulty.
fn encode_compute(pre_hash: &[u8], nonce: &[u8; 32], difficulty: [u64; 4]) -> (r: Vec<u8>)
    ensures
        r@ == compute_bytes(pre_hash@, nonce@, difficulty),
{
    let mut out: Vec<u8> = Vec::new();
    push_bytes(&mut out, pre_hash);
    push_bytes(&mut out, nonce.as_slice());
    let mut tail = u256_encode(difficulty);
    out.append(&mut tail);
    out
}

/// The work hash of a nonce: the record's encoding hashed with SHA3-256.
pub fn work_hash(pre_hash: &[u8], nonce: &[u8; 32], difficulty: [u64; 4]) -> (r: [u8; 32])
    ensures
        r@ == sha3_256_digest(compute_bytes(pre_hash@, nonce@, difficulty)),
        be_value(r@) == work_of(pre_hash@, nonce@, difficulty),
{
    let encoded = encode_compute(pre_hash, nonce, difficulty);
    sha3_256(encoded.as_slice())
}

/// Whether a 32-byte hash, read as a big-endian number, passes `difficulty`.
pub fn hash_meets_difficulty(hash: &[u8; 32], difficulty: [u64; 4]) -> (r: bool)
    ensures
        r == work_meets(be_value(hash@), difficulty),
        u256_value(difficulty) <= 1 ==> r,
{
    proof {
        if u256_value(difficulty) <= 1 {
            lemma_trivial_difficulty_always_met(hash@, difficulty);
        }
    }
    let work = u256_from_be_bytes(hash);
    let (_, overflowed) = u256_overflowing_mul(work, difficulty);
    !overflowed
}

/// A seal: the nonce the miner found and the difficulty it was mined at.
#[derive(Clone, Copy, Debug, PartialEq, Eq)]
pub struct SybilSeal {
    pub nonce: [u8; 32],
    pub difficulty: [u64; 4],
}

impl SybilSeal {
    /// The SCALE encoding: the nonce's 32 bytes, then the difficulty's.
    pub fn encode(&self) -> (r: Vec<u8>)
        ensures
            r@ == seal_bytes(self.nonce@, self.difficulty),
    {
        let mut out: Vec<u8> = Vec::new();
        push_bytes(&mut out, self.nonce.as_slice());
        let mut tail = u256_encode(self.difficulty);
        out.append(&mut tail);
        out
    }

    /// SCALE decoding: succeeds exactly when `bytes` holds at least 64 bytes,
    /// and reads the first 64 of them; the rest is left unread.
    pub fn decode(bytes: &[u8]) -> (r: Option<SybilSeal>)
        ensures
            r.is_some() == (bytes@.len() >= 64),
            r matches Some(s) ==> {
                &&& s.nonce@ == bytes@.subrange(0, 32)
                &&& s.difficulty == u256_from_le_bytes(bytes@.subrange(32, 64))
            },
    {
        let len = bytes.len();
        if len < 32 {
            return None;
        }
        let mut nonce = [0u8; 32];
        for i in 0..32
            invariant
                len == bytes@.len(),
                len >= 32,
                forall|j: int| 0 <= j < i ==> nonce@[j] == bytes@[j],
        {
            nonce[i] = bytes[i];
        }
        assert(nonce@ == bytes@.subrange(0, 32));
        let rest = &bytes[32..len];
        match u256_decode(rest) {
            Some(difficulty) => {
                assert forall|j: int| 0 <= j < 32 implies rest@[j] == bytes@.subrange(32, 64)[j] by {}
                assert(u256_from_le_bytes(rest@) == u256_from_le_bytes(bytes@.subrange(32, 64)));
                Some(SybilSeal { nonce, difficulty })
            },
            None => None,
        }
    }
}

/// The record whose hash is a nonce's work. The pre-hash is the encoding of
/// the block hash type, its bytes as they are.
#[derive(Clone, Debug, PartialEq, Eq)]
pub struct Compute {
    pub pre_hash: Vec<u8>,
    pub nonce: [u8; 32],
    pub difficulty: [u64; 4],
}

impl Compute {
    /// The SCALE encoding: pre-hash, nonce, then difficulty.
    pub fn encode(&self) -> (r: Vec<u8>)
        ensures
            r@ == compute_bytes(self.pre_hash@, self.nonce@, self.difficulty),
    {
        encode_compute(self.pre_hash.as_slice(), &self.nonce, self.difficulty)
    }

    /// The work of this record: its encoding hashed with SHA3-256.
    pub fn work_hash(&self) -> (r: [u8; 32])
        ensures
            r@ == sha3_256_digest(compute_bytes(self.pre_hash@, self.nonce@, self.difficulty)),
    {
        work_hash(self.pre_hash.as_slice(), &self.nonce, self.difficulty)
    }
}

/// `Arc::clone` (std): another pointer to the same value.
#[verifier::external_body]
fn arc_clone<C>(a: &Arc<C>) -> (r: Arc<C>)
    ensures
        r == *a,
{
    Arc::clone(a)
}

/// The proof-of-work algorithm, holding the client that it asks for the
/// current difficulty.
pub struct SybilPow<C> {
    client: Arc<C>,
}

impl<C> SybilPow<C> {
    /// The client this algorithm was made with.
    pub closed spec fn spec_client(&self) -> Arc<C> {
        self.client
    }

    pub fn new(client: Arc<C>) -> (r: Self)
        ensures
            r.spec_client() == client,
    {
        Self { client }
    }

    pub fn client(&self) -> (r: &Arc<C>)
        ensures
            *r == self.spec_client(),
    {
        &self.client
    }

    /// Checks the seal of a block against its pre-hash (the encoded block
    /// hash) and the difficulty: `false` when the seal does not decode, else
    /// whether the work of the seal's nonce passes `difficulty` (the difficulty
    /// inside the seal is not what is checked). A seal that decodes always
    /// passes at difficulty 0 or 1.
    pub fn verify(&self, pre_hash: &[u8], seal: &[u8], difficulty: [u64; 4]) -> (r: bool)
        ensures
            r == seal_accepted(pre_hash@, seal@, difficulty),
            seal@.len() >= 64 && u256_value(difficulty) <= 1 ==> r,
    {
        let decoded = match SybilSeal::decode(seal) {
            Some(s) => s,
            None => return false,
        };
        let hash = work_hash(pre_hash, &decoded.nonce, difficulty);
        hash_meets_difficulty(&hash, difficulty)
    }
}

impl<C> Clone for SybilPow<C> {
    fn clone(&self) -> (r: Self)
        ensures
            r.spec_client() == self.spec_client(),
    {
        Self::new(arc_clone(&self.client))
    }
}

/// Decoding the encoding of a seal gives back its nonce and its difficulty.
pub proof fn lemma_seal_decode_encode(seal: SybilSeal)
    ensures
        seal_bytes(seal.nonce@, seal.difficulty).len() == 64,
        seal_bytes(seal.nonce@, seal.difficulty).subrange(0, 32) == seal.nonce@,
        u256_from_le_bytes(seal_bytes(seal.nonce@, seal.difficulty).subrange(32, 64))
            == seal.difficulty,
{
    lemma_u256_le_roundtrip(seal.difficulty);
    let b = seal_bytes(seal.nonce@, seal.difficulty);
    assert(b.subrange(0, 32) =~= seal.nonce@);
    assert(b.subrange(32, 64) =~= u256_le_bytes(seal.difficulty));
}

/// Encoding the seal decoded from some bytes gives back the 64 bytes it was
/// read from.
pub proof fn lemma_seal_encode_decode(bytes: Seq<u8>)
    requires
        bytes.len() >= 64,
    ensures
        seal_bytes(bytes.subrange(0, 32), u256_from_le_bytes(bytes.subrange(32, 64)))
            == bytes.subrange(0, 64),
{
    let tail = bytes.subrange(32, 64);
    lemma_u256_bytes_roundtrip(tail);
    assert(bytes.subrange(0, 32) + tail =~= bytes.subrange(0, 64));
}

/// Bytes after the first 64 of a seal play no part in whether it passes.
pub proof fn lemma_seal_trailing_bytes_ignored(
    pre_hash: Seq<u8>,
    seal: Seq<u8>,
    extra: Seq<u8>,
    difficulty: [u64; 4],
)
    requires
        seal.len() >= 64,
    ensures
        seal_accepted(pre_hash, seal + extra, difficulty) == seal_accepted(
            pre_hash,
            seal,
            difficulty,
        ),
{
    assert((seal + extra).subrange(0, 32) =~= seal.subrange(0, 32));
}

/// Work that passes a difficulty passes every lower difficulty.
pub proof fn lemma_lower_difficulty_still_met(work: nat, difficulty: [u64; 4], lower: [u64; 4])
    requires
        work_meets(work, difficulty),
        u256_value(lower) <= u256_value(difficulty),
    ensures
        work_meets(work, lower),
{
    let (a, b) = (u256_value(lower), u256_value(difficulty));
    assert(work * a <= work * b) by (nonlinear_arith)
        requires
            a <= b,
    ;
}

/// At difficulty 0 or 1 every 32-byte hash passes.
pub proof fn lemma_trivial_difficulty_always_met(hash: Seq<u8>, difficulty: [u64; 4])
    requires
        hash.len() == 32,
        u256_value(difficulty) <= 1,
    ensures
        work_meets(be_value(hash), difficulty),
{
    lemma_be_value_bound(hash);
    lemma_byte_power_32();
    let (w, d) = (be_value(hash), u256_value(difficulty));
    assert(w * d <= w) by (nonlinear_arith)
        requires
            d <= 1,
    ;
}

/// The record that is hashed is laid out as the pre-hash as it is, then the
/// nonce as it is, then the 32 little-endian bytes of the difficulty, and
/// nothing else.
pub proof fn lemma_compute_bytes_layout(pre_hash: Seq<u8>, nonce: Seq<u8>, difficulty: [u64; 4])
    ensures
        compute_bytes(pre_hash, nonce, difficulty).len() == pre_hash.len() as int + nonce.len() + 32,
        compute_bytes(pre_hash, nonce, difficulty).subrange(0, pre_hash.len() as int) == pre_hash,
        compute_bytes(pre_hash, nonce, difficulty).subrange(
            pre_hash.len() as int,
            pre_hash.len() as int + nonce.len(),
        ) == nonce,
        forall|i: int|
            0 <= i < nonce.len() ==> #[trigger] compute_bytes(pre_hash, nonce, difficulty)[
            pre_hash.len() + i] == nonce[i],
        compute_bytes(pre_hash, nonce, difficulty).subrange(
            pre_hash.len() as int + nonce.len(),
            pre_hash.len() as int + nonce.len() + 32,
        ) == u256_le_bytes(difficulty),
        u256_from_le_bytes(
            compute_bytes(pre_hash, nonce, difficulty).subrange(
                pre_hash.len() as int + nonce.len(),
                pre_hash.len() as int + nonce.len() + 32,
            ),
        ) == difficulty,
{
    let c = compute_bytes(pre_hash, nonce, difficulty);
    let (p, n) = (pre_hash.len() as int, nonce.len() as int);
    lemma_u256_le_roundtrip(difficulty);
    assert(c.subrange(0, p) =~= pre_hash);
    assert(c.subrange(p, p + n) =~= nonce);
    assert(c.subrange(p + n, p + n + 32) =~= u256_le_bytes(difficulty));
}

/// The record hashed for a nonce is the pre-hash followed by the encoding of
/// the seal that carries that nonce at that same difficulty.
pub proof fn lemma_compute_is_pre_hash_then_seal(
    pre_hash: Seq<u8>,
    nonce: Seq<u8>,
    difficulty: [u64; 4],
)
    ensures
        compute_bytes(pre_hash, nonce, difficulty) == pre_hash + seal_bytes(nonce, difficulty),
{
    assert(compute_bytes(pre_hash, nonce, difficulty) =~= pre_hash + seal_bytes(
        nonce,
        difficulty,
    ));
}

/// Whether a seal passes is decided by the SHA3-256 digest of the pre-hash,
/// the seal's first 32 bytes and the little-endian bytes of the difficulty
/// that verification is given, read big-endian and multiplied by that same
/// difficulty.
pub proof fn lemma_seal_accepted_hashes_given_difficulty(
    pre_hash: Seq<u8>,
    seal: Seq<u8>,
    difficulty: [u64; 4],
)
    requires
        seal.len() >= 64,
    ensures
        seal_accepted(pre_hash, seal, difficulty) == (be_value(
            sha3_256_digest(pre_hash + seal.subrange(0, 32) + u256_le_bytes(difficulty)),
        ) * u256_value(difficulty) < u256_modulus()),
{
}

/// The difficulty recorded in a seal plays no part in whether it passes: two
/// seals that share their first 32 bytes get the same verdict for the same
/// pre-hash and difficulty.
pub proof fn lemma_seal_difficulty_field_ignored(
    pre_hash: Seq<u8>,
    seal: Seq<u8>,
    other: Seq<u8>,
    difficulty: [u64; 4],
)
    requires
        seal.len() >= 64,
        other.len() >= 64,
        seal.subrange(0, 32) == other.subrange(0, 32),
    ensures
        seal_accepted(pre_hash, seal, difficulty) == seal_accepted(pre_hash, other, difficulty),
{
}

/// A seal re-encoded with another recorded difficulty gets the same verdict.
pub proof fn lemma_reencoded_seal_same_verdict(
    pre_hash: Seq<u8>,
    nonce: Seq<u8>,
    sealed: [u64; 4],
    other: [u64; 4],
    difficulty: [u64; 4],
)
    requires
        nonce.len() == 32,
    ensures
        seal_accepted(pre_hash, seal_bytes(nonce, sealed), difficulty) == seal_accepted(
            pre_hash,
            seal_bytes(nonce, other),
            difficulty,
        ),
{
    assert(seal_bytes(nonce, sealed).subrange(0, 32) =~= nonce);
    assert(seal_bytes(nonce, other).subrange(0, 32) =~= nonce);
}

} // verus!
