//! Verified core of the BiHelix RGB wallet command-line tool.

pub mod text;
pub mod keys;
pub mod stock;
pub mod network;
pub mod wallet;
pub mod accept;
pub mod command;
pub mod report;
