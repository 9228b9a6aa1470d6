//! Bridges token transfers from a 32-byte native account space to an ERC20
//! contract that lives on a co-hosted EVM.
//!
//! The crate builds the byte-exact `transfer(address,uint256)` call data,
//! maps native account identifiers to EVM addresses, decides which
//! transfer path a request takes, and reports what the cross-VM dispatcher
//! answered.
pub mod address;
pub mod encoder;
pub mod router;
pub mod dispatch;
pub mod contract;

pub use contract::XvmTransfer;
pub use dispatch::PSP22Error;

