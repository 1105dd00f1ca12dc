use vstd::prelude::*;

use crate::download::model::{DownloadId, NonZeroU16, QueueId};
use crate::text::push_str;

verus! {

/// Persisted download queue.
#[derive(Debug, Clone, PartialEq, Eq)]
pub struct Queue {
    /// Stable persisted identifier.
    pub id: QueueId,
    /// Human-readable queue name.
    pub name: String,
    /// Maximum active downloads allowed for this queue.
    pub max_concurrent: NonZeroU16,
    /// Whether the queue should stop itself after all items finish.
    pub stop_on_empty: bool,
    /// Serialized schedule configuration, if any.
    pub schedule_json: Option<String>,
    /// Creation timestamp as Unix milliseconds.
    pub created_at: i64,
    /// Last update timestamp as Unix milliseconds.
    pub updated_at: i64,
}

/// Persisted queue membership and ordering.
#[derive(Debug, Clone, Copy, PartialEq, Eq, Structural)]
pub struct QueueItem {
    /// Parent queue identifier.
    pub queue_id: QueueId,
    /// Queued download identifier.
    pub download_id: DownloadId,
    /// Zero-based position inside the queue.
    pub position: u32,
}

impl Queue {
    /// The reserved default queue as boot creates it when it is missing: named `Main`,
    /// two downloads at a time, running until stopped.
    pub fn main_default(now_ms: i64) -> (r: Self)
        ensures
            r.id@ == 0,
            r.name@ == "Main"@,
            r.max_concurrent@ == 2,
            !r.stop_on_empty,
            r.schedule_json is None,
            r.created_at == now_ms,
            r.updated_at == now_ms,
    {
        let mut name = String::new();
        push_str(&mut name, "Main");
        let max_concurrent = match NonZeroU16::new(2) {
            Some(n) => n,
            None => NonZeroU16::new(1).unwrap(),
        };
        Queue {
            id: QueueId::main(),
            name,
            max_concurrent,
            stop_on_empty: false,
            schedule_json: None,
            created_at: now_ms,
            updated_at: now_ms,
        }
    }
}

} // verus!
