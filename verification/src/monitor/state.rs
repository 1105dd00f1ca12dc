use std::collections::BTreeMap;

use vstd::prelude::*;

use crate::download::model::{
    Bytes, BytesPerSecond, DownloadFailure, DownloadId, DownloadItem, DownloadProgress,
    DownloadStatus,
};
use crate::download::part::div_ceil;
use crate::monitor::speed_meter::{recorded, samples_speed, SampleView, SpeedMeter};

verus! {

/// UI-safe view of one download.
#[derive(Debug, Clone, PartialEq, Eq)]
pub struct DownloadView {
    /// Stable download id.
    pub id: DownloadId,
    /// Source URL.
    pub url: String,
    /// File name shown by UI.
    pub file_name: String,
    /// Destination folder, as UTF-8 path text.
    pub folder: String,
    /// Durable status.
    pub status: DownloadStatus,
    /// Downloaded bytes.
    pub downloaded_bytes: Bytes,
    /// Total bytes, if known.
    pub total_bytes: Option<Bytes>,
    /// Current speed.
    pub speed: BytesPerSecond,
    /// Estimated seconds remaining.
    pub eta_seconds: Option<u64>,
    /// Active part workers.
    pub active_part_count: u16,
    /// Last failure shown to UI.
    pub failure: Option<DownloadFailure>,
    /// Creation timestamp.
    pub created_at: i64,
    /// Last update timestamp.
    pub updated_at: i64,
}

/// Statuses whose downloads are shown among completed or failed ones.
pub open spec fn is_finished(status: DownloadStatus) -> bool {
    status == DownloadStatus::Completed || status == DownloadStatus::Error
}

/// Statuses whose downloads are shown among active ones.
pub open spec fn is_active_status(status: DownloadStatus) -> bool {
    !is_finished(status) && status != DownloadStatus::Removed
}

/// Seconds left at `speed`, rounded up; none when the total is unknown, the speed is
/// zero or nothing is left.
pub open spec fn eta_spec(downloaded: Bytes, total: Option<Bytes>, speed: BytesPerSecond) -> Option<
    u64,
> {
    match total {
        None => None,
        Some(t) => if speed@ == 0 || downloaded@ >= t@ {
            None
        } else {
            Some(div_ceil((t@ - downloaded@) as nat, speed@ as nat) as u64)
        },
    }
}

/// The estimate covers exactly the bytes still to download: with a known total, a
/// positive speed and bytes left, it is the least whole number of seconds in which the
/// remaining `total - downloaded` bytes arrive at that speed; otherwise there is none.
pub proof fn lemma_eta_covers_remaining(downloaded: Bytes, total: Option<Bytes>, speed: BytesPerSecond)
    ensures
        match total {
            Some(t) if speed@ > 0 && downloaded@ < t@ => {
                &&& eta_spec(downloaded, total, speed) is Some
                &&& eta_spec(downloaded, total, speed)->0 * speed@ >= t@ - downloaded@
                &&& (eta_spec(downloaded, total, speed)->0 - 1) * speed@ < t@ - downloaded@
            },
            _ => eta_spec(downloaded, total, speed) is None,
        },
{
    if let Some(t) = total {
        if speed@ > 0 && downloaded@ < t@ {
            let left = (t@ - downloaded@) as nat;
            let v = speed@ as nat;
            let q = left / v;
            let rem = left % v;
            assert(left == q * v + rem && 0 <= rem < v) by (nonlinear_arith)
                requires
                    v > 0,
                    q == left / v,
                    rem == left % v,
            ;
            assert(q <= left) by (nonlinear_arith)
                requires
                    v > 0,
                    q == left / v,
                    left == q * v + rem,
                    rem >= 0,
            ;
            let e = div_ceil(left, v);
            assert(e * v >= left && (e - 1) * v < left) by (nonlinear_arith)
                requires
                    left == q * v + rem,
                    0 <= rem < v,
                    e == q + if rem == 0 { 0nat } else { 1nat },
                    left > 0,
            ;
            assert(e <= left) by (nonlinear_arith)
                requires
                    left == q * v + rem,
                    0 <= rem < v,
                    e == q + if rem == 0 { 0nat } else { 1nat },
                    v >= 1,
            ;
        }
    }
}

/// The view of an item snapshot shown with the given speed and estimate.
pub open spec fn view_of_item(item: DownloadItem, speed: BytesPerSecond, eta: Option<u64>) -> DownloadView {
    DownloadView {
        id: item.id,
        url: item.url,
        file_name: item.file_name,
        folder: item.folder,
        status: item.status,
        downloaded_bytes: item.downloaded_bytes,
        total_bytes: item.total_bytes,
        speed,
        eta_seconds: eta,
        active_part_count: 0,
        failure: item.failure,
        created_at: item.created_at,
        updated_at: item.updated_at,
    }
}

/// A view after applying a progress snapshot.
pub open spec fn progressed(v: DownloadView, p: DownloadProgress) -> DownloadView {
    DownloadView {
        status: if p.active_part_count > 0 {
            DownloadStatus::Downloading
        } else {
            v.status
        },
        downloaded_bytes: p.downloaded_bytes,
        total_bytes: if p.total_bytes is Some {
            p.total_bytes
        } else {
            v.total_bytes
        },
        speed: p.speed,
        eta_seconds: p.eta_seconds,
        active_part_count: p.active_part_count,
        ..v
    }
}

/// A view marked as failed.
pub open spec fn failed(v: DownloadView, failure: DownloadFailure, updated_at: i64) -> DownloadView {
    DownloadView {
        status: DownloadStatus::Error,
        failure: Some(failure),
        updated_at,
        ..v
    }
}

/// `v` is the view made for a failure of a download the projection did not know.
pub open spec fn is_failure_view(v: DownloadView, id: DownloadId, failure: DownloadFailure, updated_at: i64) -> bool {
    &&& v.id == id
    &&& v.url@ == Seq::<char>::empty()
    &&& v.file_name@ == Seq::<char>::empty()
    &&& v.folder@ == Seq::<char>::empty()
    &&& v.status == DownloadStatus::Error
    &&& v.downloaded_bytes@ == 0
    &&& v.total_bytes is None
    &&& v.speed@ == 0
    &&& v.eta_seconds is None
    &&& v.active_part_count == 0
    &&& v.failure == Some(failure)
    &&& v.created_at == updated_at
    &&& v.updated_at == updated_at
}

impl DownloadView {
    fn from_item(item: &DownloadItem) -> (r: Self)
        ensures
            r == view_of_item(*item, BytesPerSecond(0), None),
    {
        let failure = match &item.failure {
            Some(f) => Some(f.clone()),
            None => None,
        };
        DownloadView {
            id: item.id,
            url: item.url.clone(),
            file_name: item.file_name.clone(),
            folder: item.folder.clone(),
            status: item.status,
            downloaded_bytes: item.downloaded_bytes,
            total_bytes: item.total_bytes,
            speed: BytesPerSecond::new(0),
            eta_seconds: None,
            active_part_count: 0,
            failure,
            created_at: item.created_at,
            updated_at: item.updated_at,
        }
    }

    fn apply_progress(&mut self, progress: DownloadProgress)
        ensures
            *final(self) == progressed(*old(self), progress),
    {
        if progress.active_part_count > 0 {
            self.status = DownloadStatus::Downloading;
        }
        self.downloaded_bytes = progress.downloaded_bytes;
        if progress.total_bytes.is_some() {
            self.total_bytes = progress.total_bytes;
        }
        self.speed = progress.speed;
        self.eta_seconds = progress.eta_seconds;
        self.active_part_count = progress.active_part_count;
    }

    fn from_failure(id: DownloadId, failure: DownloadFailure, updated_at: i64) -> (r: Self)
        ensures
            is_failure_view(r, id, failure, updated_at),
    {
        DownloadView {
            id,
            url: String::new(),
            file_name: String::new(),
            folder: String::new(),
            status: DownloadStatus::Error,
            downloaded_bytes: Bytes::new(0),
            total_bytes: None,
            speed: BytesPerSecond::new(0),
            eta_seconds: None,
            active_part_count: 0,
            failure: Some(failure),
            created_at: updated_at,
            updated_at,
        }
    }
}

/// Everything a projection holds: active views, completed views, speed history per id
/// value, and the averaging window of new meters.
pub type ProjectionModel = (
    Map<i64, DownloadView>,
    Map<i64, DownloadView>,
    Map<i64, (Seq<SampleView>, Option<u64>)>,
    Option<u64>,
);

/// Samples a new record for `k` starts from.
pub open spec fn history_of(m: ProjectionModel, k: i64) -> Seq<SampleView> {
    if m.2.contains_key(k) {
        m.2[k].0
    } else {
        Seq::empty()
    }
}

/// The projection after a full item snapshot arrived at `now_ms`: the item's speed is
/// measured, and its view moves to where its status belongs; removed items vanish.
pub open spec fn item_applied(m: ProjectionModel, item: DownloadItem, now_ms: u64) -> ProjectionModel {
    let k = item.id@;
    let samples = recorded(history_of(m, k), now_ms, item.downloaded_bytes@, m.3);
    let speed = BytesPerSecond(samples_speed(samples));
    let v = view_of_item(item, speed, eta_spec(item.downloaded_bytes, item.total_bytes, speed));
    if item.status == DownloadStatus::Removed {
        (m.0.remove(k), m.1.remove(k), m.2.remove(k), m.3)
    } else if is_finished(item.status) {
        (m.0.remove(k), m.1.insert(k, v), m.2.insert(k, (samples, m.3)), m.3)
    } else {
        (m.0.insert(k, v), m.1.remove(k), m.2.insert(k, (samples, m.3)), m.3)
    }
}

/// The projection after item snapshots arrived in order at `now_ms`.
pub open spec fn items_applied(m: ProjectionModel, items: Seq<DownloadItem>, now_ms: u64) -> ProjectionModel
    decreases items.len(),
{
    if items.len() == 0 {
        m
    } else {
        item_applied(items_applied(m, items.drop_last(), now_ms), items.last(), now_ms)
    }
}

/// The projection after a progress snapshot for `id` arrived at `now_ms`: the speed is
/// measured, and a known view takes the progress; unknown ids only get a meter.
pub open spec fn progress_applied(
    m: ProjectionModel,
    id: DownloadId,
    progress: DownloadProgress,
    now_ms: u64,
) -> ProjectionModel {
    let k = id@;
    let samples = recorded(history_of(m, k), now_ms, progress.downloaded_bytes@, m.3);
    let speed = BytesPerSecond(samples_speed(samples));
    let p = DownloadProgress {
        speed,
        eta_seconds: eta_spec(progress.downloaded_bytes, progress.total_bytes, speed),
        ..progress
    };
    let meters = m.2.insert(k, (samples, m.3));
    if m.0.contains_key(k) {
        (m.0.insert(k, progressed(m.0[k], p)), m.1, meters, m.3)
    } else if m.1.contains_key(k) {
        (m.0, m.1.insert(k, progressed(m.1[k], p)), meters, m.3)
    } else {
        (m.0, m.1, meters, m.3)
    }
}

/// The projection without `id`.
pub open spec fn removed(m: ProjectionModel, id: DownloadId) -> ProjectionModel {
    (m.0.remove(id@), m.1.remove(id@), m.2.remove(id@), m.3)
}

/// `after` is `before` once a failure of `id` was recorded: the download's view, or a
/// fresh failure view for an unknown id, is marked failed among the completed ones.
pub open spec fn failure_applied(
    before: ProjectionModel,
    after: ProjectionModel,
    id: DownloadId,
    failure: DownloadFailure,
    updated_at: i64,
) -> bool {
    let k = id@;
    &&& after.2 == before.2
    &&& after.3 == before.3
    &&& if before.0.contains_key(k) {
        &&& after.0 == before.0.remove(k)
        &&& after.1 == before.1.insert(k, failed(before.0[k], failure, updated_at))
    } else if before.1.contains_key(k) {
        &&& after.0 == before.0
        &&& after.1 == before.1.insert(k, failed(before.1[k], failure, updated_at))
    } else {
        &&& after.0 == before.0
        &&& after.1.contains_key(k)
        &&& after.1 == before.1.insert(k, after.1[k])
        &&& is_failure_view(after.1[k], id, failure, updated_at)
    }
}

/// Full UI-safe monitor state.
#[derive(Debug, Clone, PartialEq, Eq)]
pub struct MonitorState {
    /// Active downloads keyed by id value.
    pub active: BTreeMap<i64, DownloadView>,
    /// Completed or failed downloads keyed by id value.
    pub completed: BTreeMap<i64, DownloadView>,
}

impl Default for MonitorState {
    fn default() -> (r: Self)
        ensures
            r.active@ == Map::<i64, DownloadView>::empty(),
            r.completed@ == Map::<i64, DownloadView>::empty(),
    {
        MonitorState { active: BTreeMap::new(), completed: BTreeMap::new() }
    }
}

/// The tables behind a projection: the monitor state, a speed meter per id value, and
/// the averaging window of new meters.
#[derive(Debug)]
struct ProjectionTables {
    state: MonitorState,
    meters: BTreeMap<i64, SpeedMeter>,
    speed_window_ms: Option<u64>,
}

/// Stateful download event projection. Its tables are always consistent (`wf`).
#[derive(Debug)]
pub struct Projection {
    tables: ProjectionTables,
}

/// Estimated seconds left, as the projection computes it.
fn eta(downloaded: Bytes, total: Option<Bytes>, speed: BytesPerSecond) -> (r: Option<u64>)
    ensures
        r == eta_spec(downloaded, total, speed),
{
    let total = match total {
        Some(t) => t.get(),
        None => return None,
    };
    let speed = speed.get();
    if speed == 0 || downloaded.get() >= total {
        return None;
    }
    let left = total - downloaded.get();
    let whole = left / speed;
    if left % speed == 0 {
        Some(whole)
    } else {
        assert(whole < u64::MAX) by (nonlinear_arith)
            requires
                whole == left / speed,
                speed >= 1,
                left % speed != 0,
        ;
        Some(whole + 1)
    }
}

impl ProjectionTables {
    /// Active downloads keyed by id value.
    pub closed spec fn active(&self) -> Map<i64, DownloadView> {
        self.state.active@
    }

    /// Completed or failed downloads keyed by id value.
    pub closed spec fn completed(&self) -> Map<i64, DownloadView> {
        self.state.completed@
    }

    /// Speed history per download id value.
    pub closed spec fn meters(&self) -> Map<i64, (Seq<SampleView>, Option<u64>)> {
        self.meters@.map_values(|m: SpeedMeter| m@)
    }

    /// Averaging window of new speed meters.
    pub closed spec fn window(&self) -> Option<u64> {
        self.speed_window_ms
    }

    /// The projection is consistent: no download is both active and completed, every
    /// view is stored under its own id, active views have an active status, and every
    /// meter uses the projection's window.
    pub open spec fn wf(&self) -> bool {
        &&& forall|k: i64| #[trigger]
            self.active().contains_key(k) ==> !self.completed().contains_key(k)
        &&& forall|k: i64| #[trigger]
            self.active().contains_key(k) ==> self.active()[k].id@ == k && is_active_status(
                self.active()[k].status,
            )
        &&& forall|k: i64| #[trigger]
            self.completed().contains_key(k) ==> self.completed()[k].id@ == k
        &&& forall|k: i64| #[trigger]
            self.meters().contains_key(k) ==> self.meters()[k].1 == self.window()
    }

    /// Everything the projection holds.
    pub open spec fn model(&self) -> ProjectionModel {
        (self.active(), self.completed(), self.meters(), self.window())
    }

    /// Samples a new record for `k` starts from.
    pub open spec fn history(&self, k: i64) -> Seq<SampleView> {
        if self.meters().contains_key(k) {
            self.meters()[k].0
        } else {
            Seq::empty()
        }
    }

    /// Creates an empty projection.
    #[must_use]
    pub fn new(speed_window_ms: Option<u64>) -> (r: Self)
        ensures
            r.wf(),
            r.active() == Map::<i64, DownloadView>::empty(),
            r.completed() == Map::<i64, DownloadView>::empty(),
            r.meters() == Map::<i64, (Seq<SampleView>, Option<u64>)>::empty(),
            r.window() == speed_window_ms,
    {
        let r = ProjectionTables {
            state: MonitorState::default(),
            meters: BTreeMap::new(),
            speed_window_ms,
        };
        assert(r.meters() == Map::<i64, (Seq<SampleView>, Option<u64>)>::empty());
        r
    }

    /// Returns current UI-safe state.
    #[must_use]
    pub fn state(&self) -> (r: &MonitorState)
        ensures
            r.active@ == self.active(),
            r.completed@ == self.completed(),
    {
        &self.state
    }

    /// Records `bytes` at `now_ms` in the meter of `k` and returns the speed.
    fn record_speed(&mut self, k: i64, now_ms: u64, bytes: Bytes) -> (r: BytesPerSecond)
        requires
            old(self).wf(),
        ensures
            final(self).wf(),
            final(self).active() == old(self).active(),
            final(self).completed() == old(self).completed(),
            final(self).window() == old(self).window(),
            final(self).meters() == old(self).meters().insert(
                k,
                (recorded(old(self).history(k), now_ms, bytes@, old(self).window()), old(self).window()),
            ),
            r@ == samples_speed(recorded(old(self).history(k), now_ms, bytes@, old(self).window())),
    {
        let mut meter = match self.meters.remove(&k) {
            Some(m) => m,
            None => SpeedMeter::with_window(self.speed_window_ms),
        };
        let speed = meter.record(now_ms, bytes);
        self.meters.insert(k, meter);
        proof {
            assert(final(self).meters() =~= old(self).meters().insert(
                k,
                (recorded(old(self).history(k), now_ms, bytes@, old(self).window()), old(self).window()),
            ));
        }
        speed
    }

    /// Applies a full item snapshot.
    pub fn apply_item(&mut self, item: &DownloadItem, now_ms: u64)
        requires
            old(self).wf(),
        ensures
            final(self).wf(),
            final(self).model() == item_applied(old(self).model(), *item, now_ms),
            final(self).window() == old(self).window(),
            ({
                let k = item.id@;
                let samples = recorded(old(self).history(k), now_ms, item.downloaded_bytes@, old(self).window());
                let speed = BytesPerSecond(samples_speed(samples));
                let v = view_of_item(*item, speed, eta_spec(item.downloaded_bytes, item.total_bytes, speed));
                if item.status == DownloadStatus::Removed {
                    &&& final(self).meters() == old(self).meters().remove(k)
                    &&& final(self).active() == old(self).active().remove(k)
                    &&& final(self).completed() == old(self).completed().remove(k)
                } else {
                    &&& final(self).meters() == old(self).meters().insert(k, (samples, old(self).window()))
                    &&& if is_finished(item.status) {
                        &&& final(self).active() == old(self).active().remove(k)
                        &&& final(self).completed() == old(self).completed().insert(k, v)
                    } else {
                        &&& final(self).active() == old(self).active().insert(k, v)
                        &&& final(self).completed() == old(self).completed().remove(k)
                    }
                }
            }),
    {
        let mut view = DownloadView::from_item(item);
        let speed = self.record_speed(item.id.get(), now_ms, item.downloaded_bytes);
        view.speed = speed;
        view.eta_seconds = eta(item.downloaded_bytes, item.total_bytes, speed);
        self.place_view(view);
    }

    /// Applies a progress snapshot by id.
    pub fn apply_progress(&mut self, id: DownloadId, progress: DownloadProgress, now_ms: u64)
        requires
            old(self).wf(),
        ensures
            final(self).wf(),
            final(self).model() == progress_applied(old(self).model(), id, progress, now_ms),
            final(self).window() == old(self).window(),
            ({
                let k = id@;
                let samples = recorded(old(self).history(k), now_ms, progress.downloaded_bytes@, old(self).window());
                let speed = BytesPerSecond(samples_speed(samples));
                let p = DownloadProgress {
                    speed,
                    eta_seconds: eta_spec(progress.downloaded_bytes, progress.total_bytes, speed),
                    ..progress
                };
                &&& final(self).meters() == old(self).meters().insert(k, (samples, old(self).window()))
                &&& if old(self).active().contains_key(k) {
                    &&& final(self).active() == old(self).active().insert(k, progressed(old(self).active()[k], p))
                    &&& final(self).completed() == old(self).completed()
                } else if old(self).completed().contains_key(k) {
                    &&& final(self).active() == old(self).active()
                    &&& final(self).completed() == old(self).completed().insert(k, progressed(old(self).completed()[k], p))
                } else {
                    &&& final(self).active() == old(self).active()
                    &&& final(self).completed() == old(self).completed()
                }
            }),
    {
        let k = id.get();
        let speed = self.record_speed(k, now_ms, progress.downloaded_bytes);
        let mut progress = progress;
        progress.speed = speed;
        progress.eta_seconds = eta(progress.downloaded_bytes, progress.total_bytes, speed);
        if let Some(mut view) = self.state.active.remove(&k) {
            view.apply_progress(progress);
            self.state.active.insert(k, view);
            proof {
                assert(self.active() =~= old(self).active().insert(k, progressed(old(self).active()[k], progress)));
            }
            return;
        }
        if let Some(mut view) = self.state.completed.remove(&k) {
            view.apply_progress(progress);
            self.state.completed.insert(k, view);
            proof {
                assert(self.completed() =~= old(self).completed().insert(k, progressed(old(self).completed()[k], progress)));
            }
        }
    }

    /// Moves one download to completed/error projection with failure detail when present.
    pub fn apply_failure(&mut self, id: DownloadId, failure: DownloadFailure, updated_at: i64)
        requires
            old(self).wf(),
        ensures
            final(self).wf(),
            failure_applied(old(self).model(), final(self).model(), id, failure, updated_at),
            final(self).window() == old(self).window(),
            final(self).meters() == old(self).meters(),
            ({
                let k = id@;
                if old(self).active().contains_key(k) {
                    &&& final(self).active() == old(self).active().remove(k)
                    &&& final(self).completed() == old(self).completed().insert(k, failed(old(self).active()[k], failure, updated_at))
                } else if old(self).completed().contains_key(k) {
                    &&& final(self).active() == old(self).active()
                    &&& final(self).completed() == old(self).completed().insert(k, failed(old(self).completed()[k], failure, updated_at))
                } else {
                    &&& final(self).active() == old(self).active()
                    &&& final(self).completed().contains_key(k)
                    &&& final(self).completed() == old(self).completed().insert(k, final(self).completed()[k])
                    &&& is_failure_view(final(self).completed()[k], id, failure, updated_at)
                }
            }),
    {
        let k = id.get();
        if let Some(mut view) = self.state.active.remove(&k) {
            view.status = DownloadStatus::Error;
            view.failure = Some(failure);
            view.updated_at = updated_at;
            self.state.completed.insert(k, view);
            return;
        }
        if let Some(mut view) = self.state.completed.remove(&k) {
            view.status = DownloadStatus::Error;
            view.failure = Some(failure);
            view.updated_at = updated_at;
            self.state.completed.insert(k, view);
            proof {
                assert(self.active() =~= old(self).active());
                assert(self.completed() =~= old(self).completed().insert(k, failed(old(self).completed()[k], failure, updated_at)));
            }
            return;
        }
        self.state.completed.insert(k, DownloadView::from_failure(id, failure, updated_at));
        proof {
            assert(self.active() =~= old(self).active());
            assert(self.completed() =~= old(self).completed().insert(k, self.completed()[k]));
        }
    }

    /// Removes one download from all projections.
    pub fn remove(&mut self, id: DownloadId)
        requires
            old(self).wf(),
        ensures
            final(self).wf(),
            final(self).model() == removed(old(self).model(), id),
            final(self).window() == old(self).window(),
            final(self).active() == old(self).active().remove(id@),
            final(self).completed() == old(self).completed().remove(id@),
            final(self).meters() == old(self).meters().remove(id@),
    {
        let k = id.get();
        let _ = self.state.active.remove(&k);
        let _ = self.state.completed.remove(&k);
        let _ = self.meters.remove(&k);
        proof {
            assert(final(self).meters() =~= old(self).meters().remove(id@));
        }
    }

    /// Clears speed history for one download lifecycle.
    pub fn reset_meter(&mut self, id: DownloadId)
        requires
            old(self).wf(),
        ensures
            final(self).wf(),
            final(self).window() == old(self).window(),
            final(self).active() == old(self).active(),
            final(self).completed() == old(self).completed(),
            final(self).meters() == old(self).meters().remove(id@),
    {
        let _ = self.meters.remove(&id.get());
        proof {
            assert(final(self).meters() =~= old(self).meters().remove(id@));
        }
    }

    fn place_view(&mut self, view: DownloadView)
        requires
            old(self).wf(),
            old(self).meters().contains_key(view.id@),
        ensures
            final(self).wf(),
            final(self).window() == old(self).window(),
            ({
                let k = view.id@;
                if view.status == DownloadStatus::Removed {
                    &&& final(self).meters() == old(self).meters().remove(k)
                    &&& final(self).active() == old(self).active().remove(k)
                    &&& final(self).completed() == old(self).completed().remove(k)
                } else {
                    &&& final(self).meters() == old(self).meters()
                    &&& if is_finished(view.status) {
                        &&& final(self).active() == old(self).active().remove(k)
                        &&& final(self).completed() == old(self).completed().insert(k, view)
                    } else {
                        &&& final(self).active() == old(self).active().insert(k, view)
                        &&& final(self).completed() == old(self).completed().remove(k)
                    }
                }
            }),
    {
        let k = view.id.get();
        let _ = self.state.active.remove(&k);
        let _ = self.state.completed.remove(&k);
        match view.status {
            DownloadStatus::Completed | DownloadStatus::Error => {
                self.state.completed.insert(k, view);
            },
            DownloadStatus::Removed => {
                let _ = self.meters.remove(&k);
                proof {
                    assert(final(self).meters() =~= old(self).meters().remove(k));
                }
            },
            _ => {
                self.state.active.insert(k, view);
            },
        }
    }
}

impl Projection {
    /// Every projection is consistent.
    #[verifier::type_invariant]
    pub(crate) open spec fn always_wf(self) -> bool {
        self.wf()
    }

    /// Active downloads keyed by id value.
    pub closed spec fn active(&self) -> Map<i64, DownloadView> {
        self.tables.active()
    }

    /// Completed or failed downloads keyed by id value.
    pub closed spec fn completed(&self) -> Map<i64, DownloadView> {
        self.tables.completed()
    }

    /// Speed history per download id value.
    pub closed spec fn meters(&self) -> Map<i64, (Seq<SampleView>, Option<u64>)> {
        self.tables.meters()
    }

    /// Averaging window of new speed meters.
    pub closed spec fn window(&self) -> Option<u64> {
        self.tables.window()
    }

    /// The projection is consistent: no download is both active and completed, every
    /// view is stored under its own id, active views have an active status, and every
    /// meter uses the projection's window. Every projection is.
    pub open spec fn wf(&self) -> bool {
        &&& forall|k: i64| #[trigger]
            self.active().contains_key(k) ==> !self.completed().contains_key(k)
        &&& forall|k: i64| #[trigger]
            self.active().contains_key(k) ==> self.active()[k].id@ == k && is_active_status(
                self.active()[k].status,
            )
        &&& forall|k: i64| #[trigger]
            self.completed().contains_key(k) ==> self.completed()[k].id@ == k
        &&& forall|k: i64| #[trigger]
            self.meters().contains_key(k) ==> self.meters()[k].1 == self.window()
    }

    /// Everything the projection holds.
    pub open spec fn model(&self) -> ProjectionModel {
        (self.active(), self.completed(), self.meters(), self.window())
    }

    /// Creates an empty projection.
    #[must_use]
    pub fn new(speed_window_ms: Option<u64>) -> (r: Self)
        ensures
            r.wf(),
            r.active() == Map::<i64, DownloadView>::empty(),
            r.completed() == Map::<i64, DownloadView>::empty(),
            r.meters() == Map::<i64, (Seq<SampleView>, Option<u64>)>::empty(),
            r.window() == speed_window_ms,
    {
        Projection { tables: ProjectionTables::new(speed_window_ms) }
    }

    /// Returns current UI-safe state.
    #[must_use]
    pub fn state(&self) -> (r: &MonitorState)
        ensures
            self.wf(),
            r.active@ == self.active(),
            r.completed@ == self.completed(),
    {
        proof {
            use_type_invariant(self);
        }
        self.tables.state()
    }

    /// Applies a full item snapshot.
    pub fn apply_item(&mut self, item: &DownloadItem, now_ms: u64)
        ensures
            final(self).wf(),
            final(self).model() == item_applied(old(self).model(), *item, now_ms),
    {
        proof {
            use_type_invariant(&*self);
        }
        let mut tables = ProjectionTables::new(None);
        std::mem::swap(&mut tables, &mut self.tables);
        tables.apply_item(item, now_ms);
        self.tables = tables;
    }

    /// Applies a progress snapshot by id.
    pub fn apply_progress(&mut self, id: DownloadId, progress: DownloadProgress, now_ms: u64)
        ensures
            final(self).wf(),
            final(self).model() == progress_applied(old(self).model(), id, progress, now_ms),
    {
        proof {
            use_type_invariant(&*self);
        }
        let mut tables = ProjectionTables::new(None);
        std::mem::swap(&mut tables, &mut self.tables);
        tables.apply_progress(id, progress, now_ms);
        self.tables = tables;
    }

    /// Moves one download to completed/error projection with failure detail when present.
    pub fn apply_failure(&mut self, id: DownloadId, failure: DownloadFailure, updated_at: i64)
        ensures
            final(self).wf(),
            failure_applied(old(self).model(), final(self).model(), id, failure, updated_at),
    {
        proof {
            use_type_invariant(&*self);
        }
        let mut tables = ProjectionTables::new(None);
        std::mem::swap(&mut tables, &mut self.tables);
        tables.apply_failure(id, failure, updated_at);
        self.tables = tables;
    }

    /// Removes one download from all projections.
    pub fn remove(&mut self, id: DownloadId)
        ensures
            final(self).wf(),
            final(self).model() == removed(old(self).model(), id),
    {
        proof {
            use_type_invariant(&*self);
        }
        let mut tables = ProjectionTables::new(None);
        std::mem::swap(&mut tables, &mut self.tables);
        tables.remove(id);
        self.tables = tables;
    }

    /// Clears speed history for one download lifecycle.
    pub fn reset_meter(&mut self, id: DownloadId)
        ensures
            final(self).wf(),
            final(self).window() == old(self).window(),
            final(self).active() == old(self).active(),
            final(self).completed() == old(self).completed(),
            final(self).meters() == old(self).meters().remove(id@),
    {
        proof {
            use_type_invariant(&*self);
        }
        let mut tables = ProjectionTables::new(None);
        std::mem::swap(&mut tables, &mut self.tables);
        tables.reset_meter(id);
        self.tables = tables;
    }
}

impl Clone for ProjectionTables {
    fn clone(&self) -> (r: Self)
        ensures
            r.model() == self.model(),
    {
        ProjectionTables {
            state: MonitorState {
                active: self.state.active.clone(),
                completed: self.state.completed.clone(),
            },
            meters: self.meters.clone(),
            speed_window_ms: self.speed_window_ms,
        }
    }
}

impl Clone for Projection {
    /// A projection holding the same views, meters and window.
    fn clone(&self) -> (r: Self)
        ensures
            r.model() == self.model(),
    {
        proof {
            use_type_invariant(self);
        }
        Projection { tables: self.tables.clone() }
    }
}

} // verus!
