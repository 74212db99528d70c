//! The setup wizard that provisions a wallet daemon: an ordered list of steps
//! that gather a daemon configuration, and the finalization that validates it
//! and writes the daemon's and the application's configuration files.

pub mod config;
pub mod finalize;
pub mod installer;
pub mod message;
pub mod network;
pub mod step;
