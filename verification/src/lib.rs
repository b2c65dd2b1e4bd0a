//! An in-memory task list: task records, the ordered collection that owns
//! them, and the rules for saving and loading the collection.

pub mod error;
pub mod laws;
pub mod manager;
pub mod menu;
pub mod priority;
pub mod search;
pub mod storage;
pub mod task;
pub mod text;
pub mod timestamp;

pub use error::{ErrorKind, TaskError};
pub use manager::TasksManager;
pub use menu::MenuCommand;
pub use priority::Priority;
pub use storage::{FileRead, WriteOutcome};
pub use task::{Task, TaskRecord};
pub use timestamp::Timestamp;
