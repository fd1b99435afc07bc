//! Scheduling core for personal tasks: calendar dates, clock times, closed-open
//! time ranges, completion checkpoints, tasks, todos and in-memory stores.

pub mod date;
pub mod date_time;
pub mod done_status;
pub mod memory;
pub mod repository;
pub mod task;
pub mod time;
pub mod time_range;
pub mod timestamp;
pub mod todo;
pub mod types;

pub use date::{Date, DateValidationError};
pub use date_time::DateTime;
pub use done_status::{DoneStatus, DoneStatusList};
pub use memory::{MockTaskRepository, MockTodoRepository};
pub use repository::{RepositoryError, RepositoryResult, TaskRepository, TodoRepository};
pub use task::{Task, TaskValidationError};
pub use time::{Time, TimeValidationError};
pub use time_range::{DateTimeRange, DateTimeRangeValidationError, TimeRange, TimeRangeValidationError};
pub use timestamp::Timestamp;
pub use todo::Todo;
pub use types::{Id, IdSuppier, WithId};
