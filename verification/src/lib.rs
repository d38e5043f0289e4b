//! The logic of the OKO monitoring system: the core service that blocks
//! forbidden processes, the watchdog that keeps it alive, the terminal
//! monitor and the tray agent.

pub mod admin;
pub mod audit;
pub mod casing;
pub mod client;
pub mod db;
pub mod dialog;
pub mod digest;
pub mod health;
pub mod layout;
pub mod machine_id;
pub mod monitor;
pub mod network;
pub mod numbers;
pub mod parser;
pub mod process;
pub mod scm;
pub mod screen;
pub mod service;
pub mod sqlite;
pub mod text;
pub mod timestamps;
pub mod translate;
pub mod tray;
pub mod utf16;
pub mod watchdog;
