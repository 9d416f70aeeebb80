//! The three operations of the program.

pub mod init_entry;
pub mod init_pool;
pub mod update_pool;
