use vstd::prelude::*;

use crate::download::manager::DownloadEvent;
use crate::download::model::DownloadItem;
use crate::monitor::state::{
    failure_applied, item_applied, items_applied, progress_applied, removed, Projection,
};
use crate::text::push_str;

verus! {

/// Errors produced by the download monitor.
#[derive(Debug, Clone, Copy, PartialEq, Eq, Structural)]
pub enum DownloadMonitorError {
    /// Download event stream closed unexpectedly.
    EventStreamClosed,
    /// All state subscribers were dropped.
    StateSubscribersDropped,
    /// System clock is earlier than Unix epoch.
    ClockBeforeEpoch,
    /// System clock value does not fit in the projection timestamp range.
    ClockOutOfRange,
}

/// Result type returned by monitor APIs.
pub type DownloadMonitorResult<T> = Result<T, DownloadMonitorError>;

impl DownloadMonitorError {
    /// The error message, as `Display` shows it.
    pub open spec fn message(&self) -> Seq<char> {
        match self {
            DownloadMonitorError::EventStreamClosed => "download event stream closed"@,
            DownloadMonitorError::StateSubscribersDropped =>
                "monitor state subscribers were dropped"@,
            DownloadMonitorError::ClockBeforeEpoch => "system clock is earlier than Unix epoch"@,
            DownloadMonitorError::ClockOutOfRange => "system clock timestamp is out of range"@,
        }
    }

    /// The error message, as `Display` shows it.
    pub fn to_string(&self) -> (r: String)
        ensures
            r@ == self.message(),
    {
        let mut r = String::new();
        match self {
            DownloadMonitorError::EventStreamClosed => push_str(
                &mut r,
                "download event stream closed",
            ),
            DownloadMonitorError::StateSubscribersDropped => push_str(
                &mut r,
                "monitor state subscribers were dropped",
            ),
            DownloadMonitorError::ClockBeforeEpoch => push_str(
                &mut r,
                "system clock is earlier than Unix epoch",
            ),
            DownloadMonitorError::ClockOutOfRange => push_str(
                &mut r,
                "system clock timestamp is out of range",
            ),
        }
        r
    }
}

/// Applies item snapshots in order.
pub fn apply_items(projection: &mut Projection, items: &[DownloadItem], now_ms: u64)
    ensures
        final(projection).wf(),
        final(projection).model() == items_applied(old(projection).model(), items@, now_ms),
{
    proof {
        use_type_invariant(&*projection);
    }
    let mut i: usize = 0;
    while i < items.len()
        invariant
            i <= items@.len(),
            projection.wf(),
            projection.model() == items_applied(
                old(projection).model(),
                items@.take(i as int),
                now_ms,
            ),
        decreases items.len() - i,
    {
        projection.apply_item(&items[i], now_ms);
        assert(items@.take(i + 1).drop_last() =~= items@.take(i as int));
        i = i + 1;
    }
    assert(items@.take(i as int) =~= items@);
}

/// Projects one download event received at `now_ms` into the monitor state. A failure
/// is stamped with `now_ms`, which must then fit in an `i64`.
pub fn apply_event(projection: &mut Projection, event: DownloadEvent, now_ms: u64) -> (r:
    DownloadMonitorResult<()>)
    ensures
        final(projection).wf(),
        match event {
            DownloadEvent::BootLoaded { downloads } => r is Ok && final(projection).model()
                == items_applied(old(projection).model(), downloads@, now_ms),
            DownloadEvent::DownloadAdded { item } => r is Ok && final(projection).model()
                == item_applied(old(projection).model(), item, now_ms),
            DownloadEvent::DownloadChanged { item } => r is Ok && final(projection).model()
                == item_applied(old(projection).model(), item, now_ms),
            DownloadEvent::DownloadPaused { item } => r is Ok && final(projection).model()
                == item_applied(old(projection).model(), item, now_ms),
            DownloadEvent::DownloadResumed { item } => r is Ok && final(projection).model()
                == item_applied(old(projection).model(), item, now_ms),
            DownloadEvent::DownloadRemoved { id } => r is Ok && final(projection).model()
                == removed(old(projection).model(), id),
            DownloadEvent::DownloadFailed { id, failure } => if now_ms > i64::MAX {
                r == Err::<(), DownloadMonitorError>(DownloadMonitorError::ClockOutOfRange)
                    && final(projection).model() == old(projection).model()
            } else {
                r is Ok && failure_applied(
                    old(projection).model(),
                    final(projection).model(),
                    id,
                    failure,
                    now_ms as i64,
                )
            },
            DownloadEvent::DownloadProgress { id, progress } => r is Ok
                && final(projection).model()
                == progress_applied(old(projection).model(), id, progress, now_ms),
            DownloadEvent::Shutdown => r is Ok
                && final(projection).model() == old(projection).model(),
        },
{
    proof {
        use_type_invariant(&*projection);
    }
    match event {
        DownloadEvent::BootLoaded { downloads } => {
            apply_items(projection, downloads.as_slice(), now_ms);
        },
        DownloadEvent::DownloadAdded { item } | DownloadEvent::DownloadChanged { item }
        | DownloadEvent::DownloadPaused { item } | DownloadEvent::DownloadResumed { item } => {
            projection.apply_item(&item, now_ms);
        },
        DownloadEvent::DownloadRemoved { id } => projection.remove(id),
        DownloadEvent::DownloadFailed { id, failure } => {
            if now_ms > 9223372036854775807 {
                return Err(DownloadMonitorError::ClockOutOfRange);
            }
            projection.apply_failure(id, failure, now_ms as i64);
        },
        DownloadEvent::DownloadProgress { id, progress } => {
            projection.apply_progress(id, progress, now_ms);
        },
        DownloadEvent::Shutdown => {},
    }
    Ok(())
}

} // verus!
