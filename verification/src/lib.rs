//! Endpoint resolution and command responses of a Starknet command-line client.
//!
//! The crate decides which RPC endpoint a command talks to and models the
//! responses of completed commands: how each is laid out as a structured
//! record and how it is linked to a block explorer.

pub mod felt;
pub mod layout;
pub mod links;
pub mod network;
pub mod record;
pub mod response;
pub mod rpc;
pub mod text;
