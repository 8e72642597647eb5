//! The contract-declaration pipeline of a Starknet command-line client, as a library:
//! class-kind detection, compiled-class hash resolution, fee policy, and the decisions of the
//! declaration flow and of the confirmation poll.

pub mod artifact;
pub mod call;
pub mod casm;
pub mod compiler;
pub mod declare;
pub mod fee;
pub mod felt;
mod text;
pub mod watch;
