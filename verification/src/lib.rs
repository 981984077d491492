//! A weight-randomized task list that can be replicated between clients and a relay.
//!
//! The crate holds the engine only: the task value type, the transactional store with its
//! "current task" pointer, the selection strategies, and the U-Set synchronization protocol.
//! Every executable function carries a contract over the mathematical model of the store
//! ([`db::StoreView`]), and the laws that relate several operations are proof functions in
//! [`laws`].

pub mod commands;
pub mod db;
pub mod ident;
pub mod laws;
pub mod selection;
pub mod sync;
pub mod task;
pub mod text;
