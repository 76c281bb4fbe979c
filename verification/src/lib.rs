//! The decisions behind the test-data commands of the BTC parachain.
//!
//! The crate holds what the commands compute and decide, and nothing that talks to a node: an
//! application hands it the parsed command, performs the action it asks for, and hands the reply
//! back, until the run ends.

pub mod account;
pub mod codes;
pub mod collateral;
pub mod command;
pub mod error;
pub mod fixed;
pub mod flow;
pub mod payment;
pub mod run;
pub mod text;
