//! The block-reward pallet: a stored reward that root may change, paid at
//! the start of every block to the author named in the block's pre-runtime
//! digest. The pallet's storage is held here; paying out and depositing
//! events are left to the runtime, which gets them as values. Account ids
//! are of whatever type the runtime uses: the runtime decodes them from the
//! digest payloads and hands them in.
use vstd::prelude::*;

verus! {

/// One item of a block header's digest, as far as the pallet reads it. A
/// pre-runtime item carries its engine id and its payload as decoded into
/// the runtime's account id type (`None` where the payload does not decode
/// as one).
#[derive(Clone, Debug, PartialEq, Eq)]
pub enum DigestItem<A> {
    PreRuntime([u8; 4], Option<A>),
    Consensus([u8; 4], Vec<u8>),
    Seal([u8; 4], Vec<u8>),
    Other(Vec<u8>),
}

/// Whether an engine id is that of proof of work, `b"pow_"`.
pub open spec fn is_pow_engine(id: [u8; 4]) -> bool {
    id[0] == 0x70u8 && id[1] == 0x6fu8 && id[2] == 0x77u8 && id[3] == 0x5fu8
}

/// The author that a digest item names: a proof-of-work pre-runtime item
/// whose payload decodes as an account id.
pub open spec fn item_author<A>(item: DigestItem<A>) -> Option<A> {
    match item {
        DigestItem::PreRuntime(id, Some(account)) => {
            if is_pow_engine(id) {
                Some(account)
            } else {
                None
            }
        },
        _ => None,
    }
}

/// The author of a block: the one named by the first digest item that names
/// one.
pub open spec fn block_author<A>(logs: Seq<DigestItem<A>>) -> Option<A>
    decreases logs.len(),
{
    if logs.len() == 0 {
        None
    } else {
        match item_author(logs[0]) {
            Some(a) => Some(a),
            None => block_author(logs.drop_first()),
        }
    }
}

fn is_pow_engine_id(id: &[u8; 4]) -> (r: bool)
    ensures
        r == is_pow_engine(*id),
{
    id[0] == 0x70u8 && id[1] == 0x6fu8 && id[2] == 0x77u8 && id[3] == 0x5fu8
}

/// Finds the digest item that names the block author: the position of the
/// first proof-of-work pre-runtime item whose payload decodes as an account.
pub fn find_author<A>(logs: &Vec<DigestItem<A>>) -> (r: Option<usize>)
    ensures
        r.is_some() == block_author(logs@).is_some(),
        r matches Some(k) ==> k < logs@.len() && item_author(logs@[k as int]) == block_author(
            logs@,
        ),
{
    let n = logs.len();
    assert(logs@.subrange(0, n as int) =~= logs@);
    for i in 0..n
        invariant
            n == logs@.len(),
            block_author(logs@) == block_author(logs@.subrange(i as int, n as int)),
    {
        let ghost rest = logs@.subrange(i as int, n as int);
        assert(rest[0] == logs@[i as int]);
        assert(rest.drop_first() =~= logs@.subrange(i + 1, n as int));
        match &logs[i] {
            DigestItem::PreRuntime(id, Some(_)) => {
                if is_pow_engine_id(id) {
                    return Some(i);
                }
            },
            _ => {},
        }
    }
    assert(logs@.subrange(n as int, n as int).len() == 0);
    None
}

/// Who sent a call.
#[derive(Clone, Copy, Debug, PartialEq, Eq)]
pub enum Origin<A> {
    Root,
    Signed(A),
    /// A call that no account signed.
    Unsigned,
}

/// Why a call was refused.
#[derive(Clone, Copy, Debug, PartialEq, Eq)]
pub enum DispatchError {
    BadOrigin,
}

/// What the pallet announces.
#[derive(Clone, Copy, Debug, PartialEq, Eq)]
pub enum Event<A> {
    /// A block author has just been rewarded.
    AuthorRewarded(A),
    /// The block reward has just been changed.
    RewardUpdated(u128),
}

/// A reward to deposit into an author's account.
#[derive(Clone, Copy, Debug, PartialEq, Eq)]
pub struct Payout<A> {
    pub author: A,
    pub amount: u128,
}

impl<A> Payout<A> {
    /// The event that announces this payout, once it is made.
    pub fn into_event(self) -> (r: Event<A>)
        ensures
            r == Event::<A>::AuthorRewarded(self.author),
    {
        Event::AuthorRewarded(self.author)
    }
}

/// What the start of a block comes to: the weight it used and the reward to
/// pay, which is announced by its event (`Payout::into_event`) once paid.
#[derive(Clone, Copy, Debug, PartialEq, Eq)]
pub struct BlockStart<A> {
    pub weight: u64,
    pub payout: Option<Payout<A>>,
}

/// The stored reward after `set_reward` from `origin`: changed only by root.
pub open spec fn reward_after_set<A>(stored: Option<u128>, origin: Origin<A>, reward: u128) -> Option<
    u128,
> {
    if origin is Root {
        Some(reward)
    } else {
        stored
    }
}

/// The payout at the start of a block: the stored reward, if any, to the
/// block's author.
pub open spec fn payout_of<A>(stored: Option<u128>, logs: Seq<DigestItem<A>>) -> Option<(A, u128)> {
    match (stored, block_author(logs)) {
        (Some(amount), Some(author)) => Some((author, amount)),
        _ => None,
    }
}

/// A payout as an author and an amount.
pub open spec fn payout_view<A>(p: Option<Payout<A>>) -> Option<(A, u128)> {
    match p {
        Some(p) => Some((p.author, p.amount)),
        None => None,
    }
}

/// The pallet's storage: the block reward, if one has been set.
pub struct Pallet {
    reward: Option<u128>,
}

impl Pallet {
    pub closed spec fn spec_reward(&self) -> Option<u128> {
        self.reward
    }

    /// The storage before genesis: no reward set.
    pub fn new() -> (r: Pallet)
        ensures
            r.spec_reward() is None,
    {
        Pallet { reward: None }
    }

    /// The storage as loaded: the given reward, if one is set.
    pub fn with_reward(reward: Option<u128>) -> (r: Pallet)
        ensures
            r.spec_reward() == reward,
    {
        Pallet { reward }
    }

    /// The stored block reward.
    pub fn block_reward(&self) -> (r: Option<u128>)
        ensures
            r == self.spec_reward(),
    {
        self.reward
    }

    /// Sets the block reward; only root may. On success the stored reward is
    /// the new one and `RewardUpdated` is announced; any other origin is
    /// refused with `BadOrigin` and the storage is left as it was.
    pub fn set_reward<A>(&mut self, origin: Origin<A>, reward: u128) -> (r: Result<
        Event<A>,
        DispatchError,
    >)
        ensures
            final(self).spec_reward() == reward_after_set(old(self).spec_reward(), origin, reward),
            (origin is Root) ==> r == Ok::<Event<A>, DispatchError>(
                Event::<A>::RewardUpdated(reward),
            ),
            !(origin is Root) ==> r == Err::<Event<A>, DispatchError>(DispatchError::BadOrigin),
    {
        match origin {
            Origin::Root => {
                self.reward = Some(reward);
                Ok(Event::RewardUpdated(reward))
            },
            _ => Err(DispatchError::BadOrigin),
        }
    }

    /// The start of a block: finds the author in the digest, and when a
    /// reward is stored, pays it to the author. The block must name an
    /// author: without one the block cannot be initialized.
    pub fn on_initialize<A>(&self, block_number: u32, logs: Vec<DigestItem<A>>) -> (r: BlockStart<
        A,
    >)
        requires
            block_author(logs@) is Some,
        ensures
            r.weight == 0,
            payout_view(r.payout) == payout_of(self.spec_reward(), logs@),
    {
        let position = match find_author(&logs) {
            Some(k) => k,
            None => {
                return BlockStart { weight: 0, payout: None };
            },
        };
        match self.reward {
            Some(amount) => {
                let mut logs = logs;
                let item = logs.remove(position);
                match item {
                    DigestItem::PreRuntime(_, Some(author)) => BlockStart {
                        weight: 0,
                        payout: Some(Payout { author, amount }),
                    },
                    _ => BlockStart { weight: 0, payout: None },
                }
            },
            None => BlockStart { weight: 0, payout: None },
        }
    }
}

/// The genesis configuration: the reward to start with.
#[derive(Clone, Copy, Debug, PartialEq, Eq)]
pub struct GenesisConfig {
    pub reward: u128,
}

impl GenesisConfig {
    /// The default genesis reward, 100.
    pub fn default() -> (r: GenesisConfig)
        ensures
            r.reward == 100,
    {
        GenesisConfig { reward: 100 }
    }

    /// The storage at genesis: the configured reward.
    pub fn build(&self) -> (r: Pallet)
        ensures
            r.spec_reward() == Some(self.reward),
    {
        Pallet { reward: Some(self.reward) }
    }
}

/// Once root has set a reward, the author of the next block is paid that
/// reward, whatever was stored before.
pub proof fn lemma_root_reward_is_paid<A>(
    stored: Option<u128>,
    reward: u128,
    logs: Seq<DigestItem<A>>,
)
    requires
        block_author(logs) is Some,
    ensures
        payout_of(reward_after_set(stored, Origin::<A>::Root, reward), logs) == Some(
            (block_author(logs).unwrap(), reward),
        ),
{
}

/// A refused call to set the reward changes no later payout.
pub proof fn lemma_refused_set_keeps_payout<A>(
    stored: Option<u128>,
    origin: Origin<A>,
    reward: u128,
    logs: Seq<DigestItem<A>>,
)
    requires
        !(origin is Root),
    ensures
        payout_of(reward_after_set(stored, origin, reward), logs) == payout_of(stored, logs),
{
}

} // verus!
