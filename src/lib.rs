//! Transaction-processing core of a blockchain runtime: the weight fee model,
//! the fee multiplier controller, the reward splitter, the extrinsic
//! validation pipeline and the transaction builder.

mod arith;
pub mod fee;
pub mod multiplier;
pub mod reward;
pub mod extrinsic;
pub mod state;
pub mod pipeline;
pub mod builder;
pub mod version;

pub use reward::MockTreasury;
pub use version::native_version;
