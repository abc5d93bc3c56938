//! Status lookups for cross-chain messages: which network a token names, where
//! its status endpoint lives, and how the messages it returns are laid out as a
//! table.

pub mod message;
pub mod network;
pub mod present;
pub mod status;
pub mod table;
pub mod text;
pub mod truncate;
