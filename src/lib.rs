//! Conditioning, mixing and minting core of an entropy harvester.
//!
//! Raw byte samples from independent producers are health-checked, condensed by a keyed
//! digest into fixed-size outputs, chained into a mixing pool, and used to gate the
//! minting of post-quantum key bundles.

pub mod control;
pub mod coordinator;
pub mod digest;
pub mod extraction;
pub mod health;
pub mod history;
pub mod minting;
pub mod mixing;
pub mod peer;
pub mod producers;
pub mod pqc;
pub mod stats;
