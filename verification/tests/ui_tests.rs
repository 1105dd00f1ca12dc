use raijin::download::{Bytes, BytesPerSecond, DownloadId, DownloadStatus};
use raijin::monitor::DownloadView;
use raijin::ui::format::{
    byte_sort_value, concurrent_setting, display_name, enabled_text, file_name_from_url,
    format_date_added, format_eta, kind_from_name, sanitize_file_name, speed_limit_text,
    status_label, status_order, status_uses_progress, stepper_text_value,
};
use raijin::ui::table::{
    text_compare, DownloadRowKeys, RowOrder, SortDirection, SortState, TableColumn,
};

fn view(file_name: &str) -> DownloadView {
    DownloadView {
        id: DownloadId::new(17),
        url: String::new(),
        file_name: file_name.to_owned(),
        folder: String::new(),
        status: DownloadStatus::Queued,
        downloaded_bytes: Bytes::zero(),
        total_bytes: None,
        speed: BytesPerSecond::zero(),
        eta_seconds: None,
        active_part_count: 0,
        failure: None,
        created_at: 0,
        updated_at: 0,
    }
}

#[test]
fn status_text_and_order_should_follow_the_table() {
    assert_eq!(status_label(DownloadStatus::PreparingFile), "Preparing");
    assert_eq!(status_label(DownloadStatus::Completed), "Finished");
    assert!(status_order(DownloadStatus::Downloading) < status_order(DownloadStatus::Paused));
    assert_eq!(status_order(DownloadStatus::Removed), 8);
    assert!(status_uses_progress(DownloadStatus::Paused));
    assert!(!status_uses_progress(DownloadStatus::Completed));
}

#[test]
fn eta_and_dates_should_render_in_words() {
    assert_eq!(format_eta(None), "-");
    assert_eq!(format_eta(Some(59)), "59s");
    assert_eq!(format_eta(Some(125)), "2m 5s");
    let day = 86_400_000;
    assert_eq!(format_date_added(0, Some(day)), "-");
    assert_eq!(format_date_added(5, None), "-");
    assert_eq!(format_date_added(5, Some(5 + day - 1)), "today");
    assert_eq!(format_date_added(5, Some(1)), "today");
    assert_eq!(format_date_added(5, Some(5 + day)), "1 day ago");
    assert_eq!(format_date_added(5, Some(5 + 3 * day)), "3 days ago");
    assert_eq!(format_date_added(5, Some(5 + 65 * day)), "2 months ago");
}

#[test]
fn file_names_should_come_from_url_paths() {
    assert_eq!(file_name_from_url("https://example.com/files/archive.zip?x=1#top"), "archive.zip");
    assert_eq!(file_name_from_url("https://example.com/files/  /"), "files");
    assert_eq!(file_name_from_url("https://example.com/a:b*c.txt"), "a_b_c.txt");
    assert_eq!(file_name_from_url(""), "download.bin");
    assert_eq!(file_name_from_url("///"), "download.bin");
    assert_eq!(sanitize_file_name("a<b>\u{7}c"), "a_b__c");
}

#[test]
fn kinds_should_follow_extensions() {
    assert_eq!(kind_from_name("setup.EXE"), "Programs");
    assert_eq!(kind_from_name("movie.final.mkv"), "Videos");
    assert_eq!(kind_from_name("photo.JPeG"), "Pictures");
    assert_eq!(kind_from_name("song.flac"), "Music");
    assert_eq!(kind_from_name("backup.tar.gz"), "Compressed");
    assert_eq!(kind_from_name("notes"), "Documents");
    assert_eq!(kind_from_name("zip"), "Compressed");
}

#[test]
fn settings_text_and_steppers_should_clamp() {
    assert_eq!(enabled_text(true), "Enabled");
    assert_eq!(speed_limit_text(Some(1_048_576)), "1024 KiB/s");
    assert_eq!(speed_limit_text(None), "Unlimited");
    assert_eq!(stepper_text_value(" 12 ", 1, 32), 12);
    assert_eq!(stepper_text_value("99", 1, 32), 32);
    assert_eq!(stepper_text_value("0", 1, 32), 1);
    assert_eq!(stepper_text_value("abc", 1, 32), 1);
    assert_eq!(stepper_text_value("5000000000", 1, 32), 1);
    assert_eq!(concurrent_setting(40).0, 16);
    assert_eq!(concurrent_setting(3).1.get(), 3);
    assert_eq!(concurrent_setting(0).1.get(), u16::MAX);
}

#[test]
fn names_and_sort_keys_should_fall_back() {
    assert_eq!(display_name(&view("")), "Download 17");
    assert_eq!(display_name(&view("a.bin")), "a.bin");
    assert_eq!(byte_sort_value(None), 0);
    assert_eq!(byte_sort_value(Some(Bytes::new(9))), 9);
}

#[test]
fn sorting_should_toggle_on_the_same_column() {
    let state = SortState { column: TableColumn::Name, direction: SortDirection::Ascending };
    let again = state.next_for(TableColumn::Name);
    assert_eq!(again.direction, SortDirection::Descending);
    let other = again.next_for(TableColumn::Size);
    assert_eq!(other, SortState { column: TableColumn::Size, direction: SortDirection::Ascending });
    assert_eq!(TableColumn::TimeLeft.label(), "Time Left");
    assert!(TableColumn::DateAdded.fills_remaining_width());
}

fn row(name: &str, size: Option<u64>, status: DownloadStatus, speed: u64, left: Option<u64>, added: &str) -> DownloadRowKeys {
    DownloadRowKeys {
        file_name: name.to_owned(),
        size_bytes: size.map(Bytes::new),
        status,
        speed_bps: speed,
        time_left: left,
        date_added: added.to_owned(),
    }
}

fn sorted(rows: &[DownloadRowKeys], column: TableColumn, direction: SortDirection) -> Vec<String> {
    let sort = SortState { column, direction };
    let mut rows = rows.to_vec();
    rows.sort_by(|a, b| match sort.compare(a, b) {
        RowOrder::Less => std::cmp::Ordering::Less,
        RowOrder::Equal => std::cmp::Ordering::Equal,
        RowOrder::Greater => std::cmp::Ordering::Greater,
    });
    rows.into_iter().map(|r| r.file_name).collect()
}

#[test]
fn text_compare_orders_as_string_ord() {
    let words = ["", "a", "ab", "b", "B", "Z", "\u{e9}", "zz", "a\u{1F600}", "ab\u{0}"];
    for x in words {
        for y in words {
            let expected = match x.cmp(y) {
                std::cmp::Ordering::Less => RowOrder::Less,
                std::cmp::Ordering::Equal => RowOrder::Equal,
                std::cmp::Ordering::Greater => RowOrder::Greater,
            };
            assert_eq!(text_compare(x, y), expected, "{x:?} vs {y:?}");
        }
    }
}

#[test]
fn rows_sort_by_each_column_in_both_directions() {
    let rows = vec![
        row("beta.zip", Some(300), DownloadStatus::Paused, 10, None, "Yesterday"),
        row("alpha.iso", None, DownloadStatus::Downloading, 500, Some(40), "Today"),
        row("gamma.bin", Some(20), DownloadStatus::Completed, 0, Some(5), "2024-01-02"),
    ];
    let asc = SortDirection::Ascending;
    let desc = SortDirection::Descending;
    assert_eq!(sorted(&rows, TableColumn::Name, asc), ["alpha.iso", "beta.zip", "gamma.bin"]);
    assert_eq!(sorted(&rows, TableColumn::Name, desc), ["gamma.bin", "beta.zip", "alpha.iso"]);
    assert_eq!(sorted(&rows, TableColumn::Size, asc), ["alpha.iso", "gamma.bin", "beta.zip"]);
    assert_eq!(sorted(&rows, TableColumn::Status, asc), ["alpha.iso", "beta.zip", "gamma.bin"]);
    assert_eq!(sorted(&rows, TableColumn::Speed, desc), ["alpha.iso", "beta.zip", "gamma.bin"]);
    assert_eq!(sorted(&rows, TableColumn::TimeLeft, asc), ["gamma.bin", "alpha.iso", "beta.zip"]);
    assert_eq!(sorted(&rows, TableColumn::DateAdded, asc), ["gamma.bin", "alpha.iso", "beta.zip"]);
}

#[test]
fn row_comparison_is_flipped_by_swapping_rows() {
    let a = row("a", Some(1), DownloadStatus::Queued, 3, None, "x");
    let b = row("b", Some(1), DownloadStatus::Error, 2, Some(9), "x");
    for column in [
        TableColumn::Name,
        TableColumn::Size,
        TableColumn::Status,
        TableColumn::Speed,
        TableColumn::TimeLeft,
        TableColumn::DateAdded,
    ] {
        for direction in [SortDirection::Ascending, SortDirection::Descending] {
            let sort = SortState { column, direction };
            assert_eq!(sort.compare(&a, &a), RowOrder::Equal);
            assert_eq!(sort.compare(&b, &a), sort.compare(&a, &b).reverse());
        }
    }
    let by_size = SortState { column: TableColumn::Size, direction: SortDirection::Descending };
    assert_eq!(by_size.compare(&a, &b), RowOrder::Equal);
    let by_speed = SortState { column: TableColumn::Speed, direction: SortDirection::Descending };
    assert_eq!(by_speed.compare(&a, &b), RowOrder::Less);
}
