//! The rules of a local payment gateway: how a request to move an asset
//! becomes an unsigned transaction, how a signed one is taken in for
//! broadcast, and how a "payment required" response is paid and retried.
//!
//! The library computes and decides; it reads no file and opens no
//! connection. Whoever drives it fetches the checkpoint hash, performs the
//! HTTP exchanges and reads the wallet files, and hands in what came back.
//!
//! Addresses, hashes and signatures are decoded, token accounts derived,
//! instructions made and transactions encoded and signed by the network's
//! own libraries. Each such call stands in one small function whose contract
//! is taken on trust; everything around those calls is proved.

pub mod asset;
pub mod builder;
pub mod flow;
pub mod history;
pub mod instruction;
pub mod keys;
pub mod memo;
pub mod network;
pub mod payment;
pub mod reads;
pub mod submit;
pub mod text;
pub mod wallet;
pub mod wire;
