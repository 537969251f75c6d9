//! A sandboxed host for decentralized-exchange guest modules.
//!
//! - `pricing`: constant-product pricing of exact-input and exact-output
//!   swaps, as a guest performs it, over 256-bit products (`wide`).
//! - `registers` and `storage`: the register table and the keyspace that the
//!   host keeps for one call.
//! - `host` and `dispatch`: the per-call state and what each implemented host
//!   function does to it.
//! - `catalog`: every host function a guest may import, implemented or
//!   declared only for linking.
//! - `engine`: deployed module code by deployer and id.

pub mod wide;
pub mod pricing;
pub mod registers;
pub mod storage;
pub mod host;
pub mod catalog;
pub mod engine;
pub mod dispatch;
