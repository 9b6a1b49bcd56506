//! A minimal cooperative task executor: a registry of prioritised tasks,
//! per-task FIFO mailboxes of byte payloads, and a priority-maximising
//! scheduling query. The executor runs no code itself; a host drives it by
//! creating tasks, exchanging messages, and asking which task should run next.

pub mod executor;
pub mod laws;

pub use executor::Exec;
pub use executor::Task;
pub use executor::TaskId;
pub use executor::TaskState;
