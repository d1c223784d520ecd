//! Persistence layer for a Kanban-style task board.
//!
//! The library covers the single write path of the board: a `Task` value is
//! built by the caller, a storage handle is opened on a local database file,
//! the `tasks` table is ensured to exist, and the task is appended as one
//! row. Each storage operation's effect is stated against a mathematical
//! model of the table: a map from task id to the stored row.

pub mod store;
pub mod task;

pub use store::Store;
pub use store::StoreError;
pub use store::establish_connection;
pub use store::create_tables;
pub use store::insert_task;
pub use task::Task;
pub use task::TaskRow;
