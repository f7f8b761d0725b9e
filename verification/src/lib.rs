//! Launch planning for the `geph4-client` daemon: the command-line argument
//! vector derived from a typed configuration, the per-platform launch
//! strategy, the RPC key lifecycle and the version-string parser.

pub mod text;
pub mod platform;
pub mod utils;
pub mod rpc_key;
pub mod version;
pub mod daemon;
pub mod lemmas;
