//! Supervision of a fleet of miners on a three-phase installation with
//! photovoltaic generation: the miners run on self-produced energy, and
//! over a billing period no more is drawn from the grid than the contract
//! lets draw back.
//!
//! `reconciler` owns the state and decides; `system` is the model of the
//! devices and their state machines; `scheduler` chooses the miners to
//! run; `handlers` reads what the broker delivers; `billing`, `database`,
//! `config`, `topology_file` and `settings` serve the start-up.

pub mod billing;
pub mod config;
pub mod database;
pub mod handlers;
pub mod reconciler;
pub mod scheduler;
pub mod settings;
pub mod structs;
pub mod system;
pub mod text;
pub mod topology_file;
