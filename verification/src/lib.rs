//! Verified logic of the Serum staking registry: the account lists that the
//! registry client sends, the admission rules of the stake instruction, and
//! the basket that the stake pool asks for when pool tokens are created.
pub mod address;
pub mod programs;
pub mod client;
pub mod stake;
pub mod get_basket;

