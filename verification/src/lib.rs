//! Proof-of-work sealing and block-reward logic of a Substrate chain.
pub mod hashing;
pub mod mining;
pub mod pow;
pub mod rewards;
pub mod runtime;
pub mod uint;
