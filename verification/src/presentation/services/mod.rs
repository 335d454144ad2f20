pub mod async_task;
pub mod async_task_manager;
pub mod package_operation_handler;
pub mod result_cell;
pub mod task_laws;

pub use async_task::{AsyncTask, Completion, TaskKind};
pub use async_task_manager::{AsyncTaskManager, TaskResult};
pub use package_operation_handler::{OperationResult, PackageOperation};
pub use result_cell::{CellRead, ResultCell};
