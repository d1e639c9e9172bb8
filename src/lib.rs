//! Native wallet core: account keys and addresses, transaction envelopes and
//! their signature payloads, the request dispatcher and the buffers handed
//! back across the foreign boundary.

pub mod account;
pub mod address;
pub mod bytes;
pub mod crypto;
pub mod encoding;
pub mod error;
pub mod shared_account;
pub mod shared_wallet;
pub mod model;
pub mod transaction;
pub mod rust_data;
pub mod messages;
pub mod requests;
pub mod response;
pub mod dispatch;
pub mod logger;
