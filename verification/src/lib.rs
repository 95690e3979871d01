//! A network speed-test tool's decision logic: the command-line grammar,
//! the start-up checks, the choice of server, what the transfer workers do
//! with each response, when samples are taken, and the dashboard's
//! measurements and text.

mod chars;
pub mod cli;
pub mod clock;
pub mod dashboard;
pub mod keys;
pub mod servers;
pub mod startup;
pub mod status;
pub mod text;
pub mod transfer;
