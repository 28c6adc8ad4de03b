//! The state that the protocol keeps.

pub mod accumulator;
pub mod merkle;
pub mod notes;
pub mod nullifier;
pub mod protocol;
pub mod rate_limit;
pub mod recent_roots;
pub mod vault;

pub use accumulator::{AccumulatorView, NullifierTreeView};
pub use merkle::{CommitmentTree, NullifierTree, TREE_DEPTH, ZERO_VALUE};
pub use notes::{ComplianceProof, Denomination, ShieldedNote};
pub use nullifier::Nullifier;
pub use protocol::ProtocolState;
pub use rate_limit::{RateLimitError, RateLimitState};
pub use recent_roots::{RootRing, RECENT_ROOTS_COUNT};
pub use vault::ShadowVault;
