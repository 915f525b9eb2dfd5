use sybil::mining::{Miner, MinerStep, MiningMetadata};
use sybil::pow::SybilPow;
use sybil::rewards::{
    find_author, BlockStart, DigestItem, DispatchError, Event, GenesisConfig, Origin, Pallet,
    Payout,
};
use sybil::runtime::HandleDustRemoval;
use std::sync::Arc;

const POW: [u8; 4] = *b"pow_";

fn author_logs(author: [u8; 32]) -> Vec<DigestItem<[u8; 32]>> {
    vec![
        DigestItem::Other(vec![1, 2, 3]),
        DigestItem::PreRuntime(*b"aura", Some([9; 32])),
        DigestItem::PreRuntime(POW, None),
        DigestItem::Seal(POW, vec![5; 32]),
        DigestItem::PreRuntime(POW, Some(author)),
        DigestItem::PreRuntime(POW, Some([8; 32])),
    ]
}

#[test]
fn genesis_default_reward_is_100() {
    let genesis = GenesisConfig::default();
    assert_eq!(genesis.reward, 100);
    assert_eq!(genesis.build().block_reward(), Some(100));
}

#[test]
fn find_author_takes_first_pow_pre_runtime_that_decodes() {
    assert_eq!(find_author(&author_logs([4; 32])), Some(4));
    assert_eq!(find_author(&vec![DigestItem::<u64>::PreRuntime(POW, None)]), None);
    assert_eq!(find_author::<u64>(&vec![]), None);
    assert_eq!(
        find_author(&vec![DigestItem::Consensus(POW, vec![]), DigestItem::PreRuntime(POW, Some(6u64))]),
        Some(1)
    );
}

#[test]
fn genesis_reward_is_paid_to_author() {
    let pallet = GenesisConfig::default().build();
    let start = pallet.on_initialize(1, author_logs([4; 32]));
    let payout = Payout { author: [4; 32], amount: 100 };
    assert_eq!(start, BlockStart { weight: 0, payout: Some(payout) });
    assert_eq!(payout.into_event(), Event::AuthorRewarded([4; 32]));
}

#[test]
fn eight_byte_account_author_is_paid() {
    let pallet = GenesisConfig::default().build();
    let logs = vec![DigestItem::PreRuntime(*b"aura", Some(1u64)), DigestItem::PreRuntime(POW, Some(2u64))];
    let start = pallet.on_initialize(1, logs);
    assert_eq!(start, BlockStart { weight: 0, payout: Some(Payout { author: 2u64, amount: 100 }) });
}

#[test]
fn undecodable_author_item_is_skipped() {
    let pallet = GenesisConfig { reward: 50 }.build();
    let logs = vec![
        DigestItem::PreRuntime(POW, None),
        DigestItem::PreRuntime(POW, Some(3u64)),
        DigestItem::PreRuntime(POW, Some(4u64)),
    ];
    let start = pallet.on_initialize(1, logs);
    assert_eq!(start.weight, 0);
    assert_eq!(start.payout, Some(Payout { author: 3u64, amount: 50 }));
}

#[test]
fn no_reward_set_pays_nothing() {
    let pallet = Pallet::new();
    assert_eq!(pallet.block_reward(), None);
    let start = pallet.on_initialize(1, author_logs([4; 32]));
    assert_eq!(start, BlockStart { weight: 0, payout: None });
}

#[test]
fn root_sets_reward_and_it_is_paid() {
    let mut pallet = GenesisConfig { reward: 5 }.build();
    assert_eq!(pallet.set_reward::<u64>(Origin::Root, 77), Ok(Event::RewardUpdated(77)));
    assert_eq!(pallet.block_reward(), Some(77));
    let start = pallet.on_initialize(2, author_logs([3; 32]));
    assert_eq!(start.payout, Some(Payout { author: [3; 32], amount: 77 }));
}

#[test]
fn only_root_may_set_reward() {
    let mut pallet = GenesisConfig { reward: 5 }.build();
    assert_eq!(pallet.set_reward(Origin::Signed(1u64), 9), Err(DispatchError::BadOrigin));
    assert_eq!(pallet.set_reward::<u64>(Origin::Unsigned, 9), Err(DispatchError::BadOrigin));
    assert_eq!(pallet.block_reward(), Some(5));
}

#[test]
fn loaded_storage_is_used() {
    let pallet = Pallet::with_reward(Some(12));
    assert_eq!(pallet.block_reward(), Some(12));
    let logs = vec![DigestItem::PreRuntime(POW, Some(7u64))];
    assert_eq!(pallet.on_initialize(3, logs).payout, Some(Payout { author: 7u64, amount: 12 }));
}

#[test]
fn dust_goes_to_treasury() {
    assert_eq!(HandleDustRemoval::on_nonzero_unbalanced(12).amount, 12);
}

#[test]
fn miner_idles_without_metadata() {
    let miner = Miner::new(0, None);
    assert!(matches!(miner.step([0; 32]), MinerStep::Idle));
}

#[test]
fn miner_rereads_metadata_only_on_new_version() {
    let mut miner = Miner::new(1, None);
    assert!(!miner.is_stale(1));
    assert!(miner.is_stale(2));
    let meta = MiningMetadata { pre_hash: vec![2; 32], difficulty: [1, 0, 0, 0] };
    // Same version: what is fetched is not taken, and the miner stays idle.
    assert!(matches!(miner.round(1, Some(meta.clone()), [0; 32]), MinerStep::Idle));
    assert_eq!(miner.metadata(), &None);
    // New version: the fetched metadata is taken before the nonce is tried.
    assert!(matches!(miner.round(2, Some(meta.clone()), [0; 32]), MinerStep::Submit(_)));
    assert_eq!(miner.version(), 2);
    assert_eq!(miner.metadata(), &Some(meta));
    // Another new version with nothing to mine: idle again.
    assert!(matches!(miner.round(3, None, [0; 32]), MinerStep::Idle));
    assert_eq!(miner.metadata(), &None);
}

#[test]
fn miner_submits_only_seals_that_verify() {
    let meta = MiningMetadata { pre_hash: vec![2; 32], difficulty: [3, 0, 0, 0] };
    let miner = Miner::new(1, Some(meta.clone()));
    let pow = SybilPow::new(Arc::new(()));
    let (mut submitted, mut retried) = (0, 0);
    for i in 0u8..64 {
        match miner.step([i; 32]) {
            MinerStep::Submit(seal) => {
                assert!(pow.verify(&meta.pre_hash, &seal, meta.difficulty));
                submitted += 1;
            }
            MinerStep::Retry => retried += 1,
            MinerStep::Idle => panic!("metadata is set"),
        }
    }
    assert!(submitted > 0 && retried > 0);
}
