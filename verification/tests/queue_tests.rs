use raijin::download::{DownloadEvent, DownloadId, NonZeroU16, QueueId};
use raijin::queue::manager::{
    check_scheduled_queue, compact_items, enqueue_item, reorder_items, terminal_download,
    validate_reorder, QueueRuntime, ScheduleAction,
};
use raijin::queue::{Queue, QueueItem, QueueManagerError, QueueManagerOptions};

fn queue(max_concurrent: u16, stop_on_empty: bool) -> Queue {
    let mut queue = Queue::main_default(1);
    queue.max_concurrent = NonZeroU16::new(max_concurrent).expect("non-zero");
    queue.stop_on_empty = stop_on_empty;
    queue
}

fn items(ids: &[i64]) -> Vec<QueueItem> {
    ids.iter()
        .enumerate()
        .map(|(position, id)| QueueItem {
            queue_id: QueueId::main(),
            download_id: DownloadId::new(*id),
            position: position as u32,
        })
        .collect()
}

fn ids(values: &[i64]) -> Vec<DownloadId> {
    values.iter().map(|value| DownloadId::new(*value)).collect()
}

#[test]
fn main_default_queue_should_allow_two_downloads() {
    let queue = Queue::main_default(7);
    assert_eq!(queue.id, QueueId::main());
    assert_eq!(queue.name, "Main");
    assert_eq!(queue.max_concurrent.get(), 2);
    assert!(!queue.stop_on_empty);
    assert_eq!(queue.schedule_json, None);
    assert_eq!((queue.created_at, queue.updated_at), (7, 7));
}

#[test]
fn queue_should_start_at_most_max_concurrent_downloads() {
    let queue = queue(2, false);
    let items = items(&[1, 2, 3]);
    let mut runtime = QueueRuntime::new();
    runtime.start();
    let mut started = Vec::new();
    loop {
        match runtime.next_action(&queue, &items) {
            ScheduleAction::Start(item) => {
                runtime.started(item.download_id);
                started.push(item.download_id.get());
            }
            ScheduleAction::Idle => break,
            ScheduleAction::StopOnEmpty => panic!("queue does not stop on empty"),
        }
    }
    assert_eq!(started, vec![1, 2]);
    assert_eq!(runtime.active_count(), 2);
}

#[test]
fn queue_should_start_next_item_after_completion() {
    let queue = queue(1, false);
    let mut runtime = QueueRuntime::new();
    runtime.start();
    let first = items(&[1, 2]);
    assert_eq!(runtime.next_action(&queue, &first), ScheduleAction::Start(first[0]));
    runtime.started(first[0].download_id);
    assert_eq!(runtime.next_action(&queue, &first), ScheduleAction::Idle);

    runtime.finish(DownloadId::new(1));
    let remaining = compact_items(&first[1..]).expect("positions fit");
    assert_eq!(remaining, items(&[2]));
    assert_eq!(runtime.next_action(&queue, &remaining), ScheduleAction::Start(remaining[0]));
}

#[test]
fn queue_should_stop_itself_when_empty() {
    let queue = queue(3, true);
    let mut runtime = QueueRuntime::new();
    runtime.start();
    let list = items(&[4]);
    runtime.started(DownloadId::new(4));
    assert_eq!(runtime.next_action(&queue, &list), ScheduleAction::StopOnEmpty);
    runtime.halt();
    assert!(!runtime.is_running());
    assert_eq!(runtime.next_action(&queue, &list), ScheduleAction::Idle);
}

#[test]
fn queue_stop_should_pause_active_items() {
    let mut runtime = QueueRuntime::new();
    runtime.start();
    runtime.started(DownloadId::new(9));
    runtime.started(DownloadId::new(3));
    let mut to_pause: Vec<i64> = runtime.stop().iter().map(|id| id.get()).collect();
    to_pause.sort_unstable();
    assert_eq!(to_pause, vec![3, 9]);
    assert!(!runtime.is_running());
    assert_eq!(runtime.active_count(), 0);
    assert!(!runtime.is_active(DownloadId::new(9)));
}

#[test]
fn reorder_should_persist_queue_order() {
    let existing = items(&[1, 2, 3]);
    let order = ids(&[3, 1, 2]);
    assert_eq!(validate_reorder(&existing, &order), Ok(()));
    let reordered = reorder_items(QueueId::main(), &order).expect("positions fit");
    assert_eq!(reordered, items(&[3, 1, 2]));
}

#[test]
fn reorder_should_reject_missing_duplicate_or_foreign_ids() {
    let existing = items(&[1, 2, 3]);
    for order in [ids(&[1, 2]), ids(&[1, 1, 2]), ids(&[1, 2, 4]), ids(&[1, 2, 3, 4])] {
        assert_eq!(validate_reorder(&existing, &order), Err(QueueManagerError::InvalidReorder));
    }
    assert_eq!(validate_reorder(&[], &[]), Ok(()));
}

#[test]
fn completion_should_remove_item_from_queue() {
    let item = raijin::download::DownloadItem {
        id: DownloadId::new(5),
        kind: raijin::download::DownloadKind::Http,
        url: "https://example.com/a".to_owned(),
        download_page: None,
        headers: std::collections::BTreeMap::new(),
        file_name: "a".to_owned(),
        folder: "/tmp".to_owned(),
        status: raijin::download::DownloadStatus::Completed,
        total_bytes: None,
        downloaded_bytes: raijin::download::Bytes::zero(),
        etag: None,
        last_modified: None,
        preferred_connections: None,
        speed_limit: None,
        failure: None,
        created_at: 1,
        started_at: None,
        completed_at: Some(2),
        updated_at: 2,
    };
    let mut paused = item.clone();
    paused.status = raijin::download::DownloadStatus::Paused;
    assert_eq!(
        terminal_download(&DownloadEvent::DownloadChanged { item }),
        Some((DownloadId::new(5), true))
    );
    assert_eq!(
        terminal_download(&DownloadEvent::DownloadPaused { item: paused }),
        Some((DownloadId::new(5), false))
    );
    assert_eq!(
        terminal_download(&DownloadEvent::DownloadRemoved { id: DownloadId::new(8) }),
        Some((DownloadId::new(8), true))
    );
    assert_eq!(terminal_download(&DownloadEvent::Shutdown), None);
}

#[test]
fn enqueue_should_append_once() {
    let (list, changed) = enqueue_item(QueueId::main(), items(&[1]), DownloadId::new(2))
        .expect("position fits");
    assert!(changed);
    assert_eq!(list, items(&[1, 2]));
    let (again, changed) = enqueue_item(QueueId::main(), list.clone(), DownloadId::new(2))
        .expect("position fits");
    assert!(!changed);
    assert_eq!(again, list);
}

#[test]
fn only_main_queue_is_scheduled() {
    assert_eq!(check_scheduled_queue(QueueId::main()), Ok(()));
    assert_eq!(
        check_scheduled_queue(QueueId::new(3)),
        Err(QueueManagerError::QueueNotFound(QueueId::new(3)))
    );
    assert_eq!(QueueManagerError::QueueNotFound(QueueId::new(3)).to_string(), "queue `3` not found");
    assert_eq!(
        QueueManagerError::QueueItemNotFound { queue_id: QueueId::new(0), download_id: DownloadId::new(4) }
            .to_string(),
        "download `4` not found in queue `0`"
    );
}

#[test]
fn queue_options_should_default_and_size_events() {
    let options = QueueManagerOptions::default();
    assert_eq!(options.command_buffer, 64);
    assert_eq!(options.event_buffer(), 64);
    assert_eq!(QueueManagerOptions { command_buffer: 2 }.event_buffer(), 8);
}
