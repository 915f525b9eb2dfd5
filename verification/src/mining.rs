//! The decisions of a mining thread: which work to mine on, and whether a
//! nonce gives a seal worth submitting. The thread itself (random nonces,
//! asking the mining worker, submitting, sleeping) is the caller's part.
use crate::pow::{hash_meets_difficulty, seal_accepted, seal_bytes, work_hash, work_meets, work_of, SybilSeal};
use crate::uint::u256_value;
use vstd::prelude::*;

verus! {

/// What the mining worker hands out to mine on; the pre-hash is the encoded
/// block hash.
#[derive(Clone, Debug, PartialEq, Eq)]
pub struct MiningMetadata {
    pub pre_hash: Vec<u8>,
    pub difficulty: [u64; 4],
}

/// Tries one nonce: the encoded seal when the nonce's work passes the
/// difficulty, else `None`.
pub fn mine_attempt(pre_hash: &[u8], difficulty: [u64; 4], nonce: [u8; 32]) -> (r: Option<
    Vec<u8>,
>)
    ensures
        r.is_some() == work_meets(work_of(pre_hash@, nonce@, difficulty), difficulty),
        r matches Some(seal) ==> seal@ == seal_bytes(nonce@, difficulty),
        u256_value(difficulty) <= 1 ==> r.is_some(),
{
    let hash = work_hash(pre_hash, &nonce, difficulty);
    if hash_meets_difficulty(&hash, difficulty) {
        let seal = SybilSeal { nonce, difficulty };
        Some(seal.encode())
    } else {
        None
    }
}

/// What a mining thread does after one round.
pub enum MinerStep {
    /// Submit these seal bytes to the worker.
    Submit(Vec<u8>),
    /// The nonce failed; try another at once.
    Retry,
    /// There is nothing to mine on; wait a while.
    Idle,
}

/// A mining thread's view of the work: the worker version it last saw, and
/// the metadata that came with it.
pub struct Miner {
    version: usize,
    metadata: Option<MiningMetadata>,
}

impl Miner {
    pub closed spec fn spec_version(&self) -> usize {
        self.version
    }

    pub closed spec fn spec_metadata(&self) -> Option<MiningMetadata> {
        self.metadata
    }

    /// Starts from the worker's version and metadata as first read.
    pub fn new(version: usize, metadata: Option<MiningMetadata>) -> (r: Miner)
        ensures
            r.spec_version() == version,
            r.spec_metadata() == metadata,
    {
        Miner { version, metadata }
    }

    pub fn version(&self) -> (r: usize)
        ensures
            r == self.spec_version(),
    {
        self.version
    }

    pub fn metadata(&self) -> (r: &Option<MiningMetadata>)
        ensures
            *r == self.spec_metadata(),
    {
        &self.metadata
    }

    /// Whether the worker has moved on to another version, so that the
    /// metadata must be read again.
    pub fn is_stale(&self, current_version: usize) -> (r: bool)
        ensures
            r == (current_version != self.spec_version()),
    {
        current_version != self.version
    }

    /// One try of a nonce against the metadata held: idle without metadata; else submit
    /// the seal when the nonce's work passes the difficulty, and retry when
    /// it does not.
    pub fn step(&self, nonce: [u8; 32]) -> (r: MinerStep)
        ensures
            match self.spec_metadata() {
                None => r is Idle,
                Some(m) => {
                    if work_meets(work_of(m.pre_hash@, nonce@, m.difficulty), m.difficulty) {
                        r matches MinerStep::Submit(seal) && seal@ == seal_bytes(
                            nonce@,
                            m.difficulty,
                        )
                    } else {
                        r is Retry
                    }
                },
            },
            r matches MinerStep::Submit(seal) ==> self.spec_metadata() matches Some(m)
                && seal_accepted(m.pre_hash@, seal@, m.difficulty),
    {
        match &self.metadata {
            None => MinerStep::Idle,
            Some(m) => match mine_attempt(m.pre_hash.as_slice(), m.difficulty, nonce) {
                Some(seal) => {
                    proof {
                        lemma_mined_seal_verifies(m.pre_hash@, nonce@, m.difficulty);
                    }
                    MinerStep::Submit(seal)
                },
                None => MinerStep::Retry,
            },
        }
    }

    /// One turn of a mining thread. The worker's current version comes first:
    /// when it differs from the version last seen, the metadata the worker
    /// now hands out (`fetched`, read for this turn) replaces the old, before
    /// any nonce is tried; when it does not, `fetched` is not looked at and
    /// the old metadata stays. Then the nonce is tried as in `step`: idle
    /// (the thread waits a while) without metadata, else submit or retry.
    pub fn round(
        &mut self,
        current_version: usize,
        fetched: Option<MiningMetadata>,
        nonce: [u8; 32],
    ) -> (r: MinerStep)
        ensures
            final(self).spec_version() == current_version,
            final(self).spec_metadata() == if current_version != old(self).spec_version() {
                fetched
            } else {
                old(self).spec_metadata()
            },
            match final(self).spec_metadata() {
                None => r is Idle,
                Some(m) => {
                    if work_meets(work_of(m.pre_hash@, nonce@, m.difficulty), m.difficulty) {
                        r matches MinerStep::Submit(seal) && seal@ == seal_bytes(
                            nonce@,
                            m.difficulty,
                        )
                    } else {
                        r is Retry
                    }
                },
            },
            r matches MinerStep::Submit(seal) ==> final(self).spec_metadata() matches Some(m)
                && seal_accepted(m.pre_hash@, seal@, m.difficulty),
    {
        if self.is_stale(current_version) {
            self.version = current_version;
            self.metadata = fetched;
        }
        self.step(nonce)
    }
}

/// A seal mined for some pre-hash and difficulty passes verification against
/// that same pre-hash and difficulty.
pub proof fn lemma_mined_seal_verifies(pre_hash: Seq<u8>, nonce: Seq<u8>, difficulty: [u64; 4])
    requires
        nonce.len() == 32,
        work_meets(work_of(pre_hash, nonce, difficulty), difficulty),
    ensures
        seal_accepted(pre_hash, seal_bytes(nonce, difficulty), difficulty),
{
    assert(seal_bytes(nonce, difficulty).subrange(0, 32) =~= nonce);
}

} // verus!
