//! The transactional store: tasks, the current-task pointer, the replica registry and the
//! per-replica outboxes.

pub mod backend;
pub mod memory;
pub mod model;
pub mod store;
pub mod transaction;

pub use self::backend::DBBackend;
pub use self::memory::MemoryBackend;
pub use self::memory::Transaction;
pub use self::model::DbError;
pub use self::model::StoreView;
pub use self::store::RowId;
pub use self::transaction::DBTransaction;
