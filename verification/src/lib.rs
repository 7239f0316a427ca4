//! Remote host records, their table, and the bookkeeping of the active SSH
//! session, with contracts proved by Verus.

pub mod error;
pub mod text;
pub mod remote_host;
pub mod database;
pub mod paths;
pub mod ssh_manager;
pub mod commands;
pub mod connect_flow;
