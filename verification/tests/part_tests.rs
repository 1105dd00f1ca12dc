use raijin::download::{
    split_fixed_ranges, split_fixed_ranges_with_min_part_size, Bytes, DownloadId, PartId,
    PartStatus, RangeSplitError,
};

#[test]
fn splitter_should_handle_tiny_file() -> Result<(), RangeSplitError> {
    let parts = split_fixed_ranges(DownloadId::new(1), Some(Bytes::new(2)), 4, 1)?;

    assert_eq!(parts.len(), 2);
    assert_eq!(parts[0].start_byte, Bytes::new(0));
    assert_eq!(parts[0].end_byte, Some(Bytes::new(0)));
    assert_eq!(parts[1].start_byte, Bytes::new(1));
    assert_eq!(parts[1].end_byte, Some(Bytes::new(1)));
    Ok(())
}

#[test]
fn splitter_should_handle_exact_ranges() -> Result<(), RangeSplitError> {
    let parts = split_fixed_ranges(DownloadId::new(1), Some(Bytes::new(100)), 4, 1)?;

    assert_eq!(parts[0].end_byte, Some(Bytes::new(24)));
    assert_eq!(parts[1].start_byte, Bytes::new(25));
    assert_eq!(parts[3].end_byte, Some(Bytes::new(99)));
    Ok(())
}

#[test]
fn splitter_should_handle_uneven_ranges() -> Result<(), RangeSplitError> {
    let parts = split_fixed_ranges(DownloadId::new(1), Some(Bytes::new(10)), 3, 1)?;

    assert_eq!(parts[0].end_byte, Some(Bytes::new(3)));
    assert_eq!(parts[1].start_byte, Bytes::new(4));
    assert_eq!(parts[1].end_byte, Some(Bytes::new(6)));
    assert_eq!(parts[2].start_byte, Bytes::new(7));
    assert_eq!(parts[2].end_byte, Some(Bytes::new(9)));
    Ok(())
}

#[test]
fn splitter_should_handle_unknown_size() -> Result<(), RangeSplitError> {
    let parts = split_fixed_ranges(DownloadId::new(1), None, 4, 1)?;

    assert_eq!(parts.len(), 1);
    assert_eq!(parts[0].start_byte, Bytes::zero());
    assert_eq!(parts[0].end_byte, None);
    Ok(())
}

#[test]
fn splitter_should_respect_min_part_size() -> Result<(), RangeSplitError> {
    let parts = split_fixed_ranges_with_min_part_size(
        DownloadId::new(1),
        Some(Bytes::new(10)),
        4,
        Bytes::new(4),
        1,
    )?;

    assert_eq!(parts.len(), 3);
    assert_eq!(parts[0].end_byte, Some(Bytes::new(3)));
    assert_eq!(parts[2].end_byte, Some(Bytes::new(9)));
    Ok(())
}

#[test]
fn splitter_should_allocate_unique_ids_for_large_part_indexes() -> Result<(), RangeSplitError> {
    let parts = split_fixed_ranges(DownloadId::new(1), Some(Bytes::new(1_024)), 1_024, 1)?;

    assert_eq!(parts[0].id, PartId::new(65_537));
    assert_eq!(parts[1_023].id, PartId::new(66_560));
    Ok(())
}

#[test]
fn splitter_should_reject_zero_parts() {
    let result = split_fixed_ranges(DownloadId::new(1), Some(Bytes::new(10)), 0, 1);
    assert_eq!(result, Err(RangeSplitError::ZeroParts));
    assert_eq!(
        RangeSplitError::ZeroParts.to_string(),
        "part count must be greater than zero"
    );
}

#[test]
fn splitter_parts_should_partition_the_file() -> Result<(), RangeSplitError> {
    let parts = split_fixed_ranges(DownloadId::new(7), Some(Bytes::new(1_000_003)), 7, 5)?;
    assert_eq!(parts.len(), 7);
    let mut next = 0u64;
    for (index, part) in parts.iter().enumerate() {
        assert_eq!(part.index as usize, index);
        assert_eq!(part.start_byte.get(), next);
        assert_eq!(part.current_byte, part.start_byte);
        assert_eq!(part.status, PartStatus::Idle);
        assert_eq!(part.updated_at, 5);
        let end = part.end_byte.map(|e| e.get()).unwrap_or(0);
        let len = end - part.start_byte.get() + 1;
        assert!(len == 142_857 || len == 142_858);
        next = end + 1;
    }
    assert_eq!(next, 1_000_003);
    Ok(())
}
