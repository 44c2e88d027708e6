//! The Starling JavaScript runtime: its verified core.
pub mod decimal;
pub mod error;
pub mod evaluation;
pub mod future_ext;
pub mod options;
pub mod promise_future_glue;
pub mod promise_tracker;
pub mod supervisor;
pub mod task;
pub mod task_locals;
pub mod task_table;

pub use error::{Error, ErrorKind};
pub use options::Options;
