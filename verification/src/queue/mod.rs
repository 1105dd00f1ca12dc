pub mod manager;
pub mod model;

pub use manager::{
    QueueEvent, QueueManagerError, QueueManagerOptions, QueueManagerResult,
    DEFAULT_QUEUE_COMMAND_BUFFER,
};
pub use model::{Queue, QueueItem};
