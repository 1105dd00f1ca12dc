use vstd::prelude::*;

use crate::download::model::{Bytes, DownloadId, DownloadPart, PartId, PartStatus};
use crate::text::{push_str, signed_decimal, decimal, push_decimal, push_signed_decimal};

verus! {

/// Errors returned while building persisted range parts.
#[derive(Debug, Clone, PartialEq, Eq, Structural)]
pub enum RangeSplitError {
    /// Requested part count must be greater than zero.
    ZeroParts,
    /// Part identifier calculation overflowed.
    PartIdOverflow { download_id: DownloadId, index: u32 },
}

impl RangeSplitError {
    /// The error message, as `Display` shows it.
    pub open spec fn message(&self) -> Seq<char> {
        match self {
            RangeSplitError::ZeroParts => "part count must be greater than zero"@,
            RangeSplitError::PartIdOverflow { download_id, index } => "part id overflow for download `"@
                + signed_decimal(download_id@ as int) + "` part `"@ + decimal(*index as nat) + "`"@,
        }
    }

    /// The error message, as `Display` shows it.
    pub fn to_string(&self) -> (r: String)
        ensures
            r@ == self.message(),
    {
        let mut r = String::new();
        match self {
            RangeSplitError::ZeroParts => push_str(&mut r, "part count must be greater than zero"),
            RangeSplitError::PartIdOverflow { download_id, index } => {
                push_str(&mut r, "part id overflow for download `");
                push_signed_decimal(&mut r, download_id.get());
                push_str(&mut r, "` part `");
                push_decimal(&mut r, *index as u64);
                push_str(&mut r, "`");
            },
        }
        r
    }
}

/// Multiplier that spreads part identifiers of different downloads apart.
pub open spec fn part_id_stride() -> int {
    65536
}

/// The smaller of two naturals.
pub open spec fn min_nat(a: nat, b: nat) -> nat {
    if a <= b {
        a
    } else {
        b
    }
}

/// `a / b` rounded up.
pub open spec fn div_ceil(a: nat, b: nat) -> nat {
    a / b + if a % b == 0 {
        0nat
    } else {
        1nat
    }
}

/// Number of parts a known, non-empty size is split into: at most the desired count,
/// at most one part per byte, and at most as many parts as `min_part_size` (taken as at
/// least one) allows.
pub open spec fn planned_part_count(total: nat, desired: nat, min_part_size: nat) -> nat {
    let m: nat = if min_part_size == 0 {
        1
    } else {
        min_part_size
    };
    let by_size: nat = if div_ceil(total, m) == 0 {
        1
    } else {
        div_ceil(total, m)
    };
    min_nat(min_nat(desired, total), by_size)
}

/// First byte of part `i` when `total` bytes are split into `count` near-equal parts,
/// the first `total % count` parts one byte longer.
pub open spec fn range_start(total: nat, count: nat, i: nat) -> nat {
    i * (total / count) + min_nat(i, total % count)
}

/// Length of part `i` when `total` bytes are split into `count` near-equal parts.
pub open spec fn range_len(total: nat, count: nat, i: nat) -> nat {
    total / count + if i < total % count {
        1nat
    } else {
        0nat
    }
}

/// Part identifier of part `index` of download `download_id`.
pub open spec fn part_id_value(download_id: int, index: int) -> int {
    download_id * part_id_stride() + index + 1
}

/// The identifier of part `index` can be computed without leaving `i64`.
pub open spec fn part_id_fits(download_id: int, index: int) -> bool {
    &&& i64::MIN <= download_id * part_id_stride() <= i64::MAX
    &&& part_id_value(download_id, index) <= i64::MAX
}

/// `p` is the fresh idle part `index` of `download_id` covering `start..=end`.
pub open spec fn is_planned_part(
    p: DownloadPart,
    download_id: DownloadId,
    index: nat,
    start: nat,
    end: Option<nat>,
    now_ms: i64,
) -> bool {
    &&& p.id@ == part_id_value(download_id@ as int, index as int)
    &&& p.download_id == download_id
    &&& p.index == index
    &&& p.start_byte@ == start
    &&& match end {
        Some(e) => p.end_byte is Some && p.end_byte->0@ == e,
        None => p.end_byte is None,
    }
    &&& p.current_byte@ == start
    &&& p.status == PartStatus::Idle
    &&& p.retry_count == 0
    &&& p.updated_at == now_ms
}

/// `index` is the first part whose identifier does not fit.
pub open spec fn first_unfit(download_id: int, index: int) -> bool {
    &&& !part_id_fits(download_id, index)
    &&& forall|j: int| 0 <= j < index ==> part_id_fits(download_id, j)
}

/// The ranges split a non-empty size exactly: they start at byte zero, each is non-empty,
/// each starts right after the previous one, the last ends at the final byte, and lengths
/// differ by at most one byte.
pub proof fn lemma_ranges_partition(total: nat, count: nat)
    requires
        0 < count <= total,
    ensures
        range_start(total, count, 0) == 0,
        range_start(total, count, count) == total,
        forall|i: nat|
            i < count ==> #[trigger] range_len(total, count, i) >= 1 && range_start(
                total,
                count,
                i + 1,
            ) == range_start(total, count, i) + range_len(total, count, i),
        forall|i: nat, j: nat|
            i < count && j < count ==> #[trigger] range_len(total, count, i) <= #[trigger] range_len(
                total,
                count,
                j,
            ) + 1,
{
    lemma_range_total(total, count);
    assert forall|i: nat| i < count implies #[trigger] range_len(total, count, i) >= 1
        && range_start(total, count, i + 1) == range_start(total, count, i) + range_len(
        total,
        count,
        i,
    ) by {
        lemma_range_step(total, count, i);
        assert(total / count >= 1) by (nonlinear_arith)
            requires
                0 < count <= total,
        ;
    }
}

proof fn lemma_range_step(total: nat, count: nat, i: nat)
    requires
        count > 0,
    ensures
        range_start(total, count, i + 1) == range_start(total, count, i) + range_len(
            total,
            count,
            i,
        ),
{
    let b = total / count;
    assert((i + 1) * b == i * b + b) by (nonlinear_arith);
}

proof fn lemma_range_total(total: nat, count: nat)
    requires
        count > 0,
    ensures
        range_start(total, count, count) == total,
{
    let b = total / count;
    let r = total % count;
    assert(count * b + r == total) by (nonlinear_arith)
        requires
            count > 0,
            b == total / count,
            r == total % count,
    ;
    assert(r < count) by (nonlinear_arith)
        requires
            count > 0,
            r == total % count,
    ;
}

proof fn lemma_range_bound(total: nat, count: nat, i: nat)
    requires
        0 < count,
        i < count,
    ensures
        range_start(total, count, i) + range_len(total, count, i) <= total,
{
    lemma_range_step(total, count, i);
    lemma_range_total(total, count);
    let b = total / count;
    assert((i + 1) * b <= count * b) by (nonlinear_arith)
        requires
            i + 1 <= count,
    ;
}

/// Part identifiers never collide: two parts, of the same download or of different
/// ones, with indexes a `u16` part count can produce, have different identifiers.
pub proof fn lemma_part_ids_unique(download_a: int, index_a: int, download_b: int, index_b: int)
    requires
        0 <= index_a < u16::MAX,
        0 <= index_b < u16::MAX,
        part_id_value(download_a, index_a) == part_id_value(download_b, index_b),
    ensures
        download_a == download_b,
        index_a == index_b,
{
    assert(download_a == download_b) by (nonlinear_arith)
        requires
            0 <= index_a < 65535,
            0 <= index_b < 65535,
            download_a * 65536 + index_a == download_b * 65536 + index_b,
    ;
}

/// Everything that splitting promises of its result.
pub open spec fn split_result_holds(
    r: Result<Vec<DownloadPart>, RangeSplitError>,
    download_id: DownloadId,
    total_bytes: Option<Bytes>,
    desired_parts: u16,
    min_part_size: u64,
    now_ms: i64,
) -> bool {
    if desired_parts == 0 {
        r == Err::<Vec<DownloadPart>, RangeSplitError>(RangeSplitError::ZeroParts)
    } else if total_bytes is None || total_bytes->0@ == 0 {
        if part_id_fits(download_id@ as int, 0) {
            &&& r is Ok
            &&& r->Ok_0@.len() == 1
            &&& is_planned_part(r->Ok_0@[0], download_id, 0, 0, None, now_ms)
        } else {
            r == Err::<Vec<DownloadPart>, RangeSplitError>(
                RangeSplitError::PartIdOverflow { download_id, index: 0 },
            )
        }
    } else {
        let total = total_bytes->0@ as nat;
        let count = planned_part_count(total, desired_parts as nat, min_part_size as nat);
        match r {
            Ok(parts) => {
                &&& forall|i: int| 0 <= i < count ==> part_id_fits(download_id@ as int, i)
                &&& parts@.len() == count
                &&& forall|i: int|
                    0 <= i < count ==> is_planned_part(
                        #[trigger] parts@[i],
                        download_id,
                        i as nat,
                        range_start(total, count, i as nat),
                        Some((range_start(total, count, i as nat) + range_len(total, count, i as nat) - 1) as nat),
                        now_ms,
                    )
            },
            Err(e) => match e {
                RangeSplitError::PartIdOverflow { download_id: d, index } => {
                    &&& d == download_id
                    &&& index < count
                    &&& first_unfit(download_id@ as int, index as int)
                },
                RangeSplitError::ZeroParts => false,
            },
        }
    }
}

/// Splits a known total byte count into fixed inclusive ranges.
///
/// Unknown or zero-sized resources produce one blind part. Ranged jobs should only
/// use multi-part output when total size is known and greater than zero.
pub fn split_fixed_ranges(
    download_id: DownloadId,
    total_bytes: Option<Bytes>,
    desired_parts: u16,
    now_ms: i64,
) -> (r: Result<Vec<DownloadPart>, RangeSplitError>)
    ensures
        split_result_holds(r, download_id, total_bytes, desired_parts, 1, now_ms),
{
    split_fixed_ranges_with_min_part_size(download_id, total_bytes, desired_parts, Bytes::new(1), now_ms)
}

/// Splits a known total byte count into fixed inclusive ranges while respecting a minimum part size.
///
/// Unknown or zero-sized resources produce one blind part. The actual part count is capped by
/// `desired_parts`, total byte count, and `min_part_size` so tiny downloads are not oversplit.
pub fn split_fixed_ranges_with_min_part_size(
    download_id: DownloadId,
    total_bytes: Option<Bytes>,
    desired_parts: u16,
    min_part_size: Bytes,
    now_ms: i64,
) -> (r: Result<Vec<DownloadPart>, RangeSplitError>)
    ensures
        split_result_holds(r, download_id, total_bytes, desired_parts, min_part_size@, now_ms),
{
    if desired_parts == 0 {
        return Err(RangeSplitError::ZeroParts);
    }
    let total = match total_bytes {
        Some(t) => t.get(),
        None => 0,
    };
    if total == 0 {
        let p = part(download_id, 0, 0, None, 0, now_ms);
        return match p {
            Ok(p) => {
                let mut parts: Vec<DownloadPart> = Vec::new();
                parts.push(p);
                Ok(parts)
            },
            Err(e) => Err(e),
        };
    }
    let m: u64 = if min_part_size.get() > 1 {
        min_part_size.get()
    } else {
        1
    };
    let q = total / m;
    let by_size_raw: u64 = if total % m == 0 {
        q
    } else {
        assert(m >= 2);
        assert(q <= total / 2) by (nonlinear_arith)
            requires
                q == total / m,
                m >= 2,
        ;
        q + 1
    };
    let by_size: u64 = if by_size_raw == 0 {
        1
    } else {
        by_size_raw
    };
    let desired = desired_parts as u64;
    let capped: u64 = if desired <= total {
        desired
    } else {
        total
    };
    let count: u64 = if capped <= by_size {
        capped
    } else {
        by_size
    };
    let ghost total_n = total as nat;
    assert(count == planned_part_count(total_n, desired_parts as nat, min_part_size@ as nat));
    let base = total / count;
    let rem = total % count;
    let mut parts: Vec<DownloadPart> = Vec::new();
    let mut start: u64 = 0;
    let mut index: u64 = 0;
    while index < count
        invariant
            0 < count <= total,
            count <= desired_parts,
            total_bytes->0@ == total,
            total_bytes is Some,
            total_n == total,
            count == planned_part_count(total_n, desired_parts as nat, min_part_size@ as nat),
            base == total / count,
            rem == total % count,
            index <= count,
            start == range_start(total_n, count as nat, index as nat),
            parts@.len() == index,
            forall|i: int| 0 <= i < index ==> part_id_fits(download_id@ as int, i),
            forall|i: int|
                0 <= i < index ==> is_planned_part(
                    #[trigger] parts@[i],
                    download_id,
                    i as nat,
                    range_start(total_n, count as nat, i as nat),
                    Some(
                        (range_start(total_n, count as nat, i as nat) + range_len(
                            total_n,
                            count as nat,
                            i as nat,
                        ) - 1) as nat,
                    ),
                    now_ms,
                ),
        decreases count - index,
    {
        proof {
            lemma_range_bound(total_n, count as nat, index as nat);
            lemma_range_step(total_n, count as nat, index as nat);
            lemma_ranges_partition(total_n, count as nat);
            assert(range_len(total_n, count as nat, index as nat) >= 1);
        }
        let len: u64 = if index < rem {
            base + 1
        } else {
            base
        };
        let end = start + len - 1;
        let p = part(download_id, index as u32, start, Some(end), start, now_ms);
        match p {
            Ok(p) => {
                parts.push(p);
            },
            Err(e) => {
                return Err(e);
            },
        }
        start = end + 1;
        index = index + 1;
    }
    Ok(parts)
}

fn part(
    download_id: DownloadId,
    index: u32,
    start: u64,
    end: Option<u64>,
    current: u64,
    now_ms: i64,
) -> (r: Result<DownloadPart, RangeSplitError>)
    ensures
        match r {
            Ok(p) => {
                &&& part_id_fits(download_id@ as int, index as int)
                &&& p.id@ == part_id_value(download_id@ as int, index as int)
                &&& p.download_id == download_id
                &&& p.index == index
                &&& p.start_byte@ == start
                &&& match end {
                    Some(e) => p.end_byte is Some && p.end_byte->0@ == e,
                    None => p.end_byte is None,
                }
                &&& p.current_byte@ == current
                &&& p.status == PartStatus::Idle
                &&& p.retry_count == 0
                &&& p.updated_at == now_ms
            },
            Err(e) => !part_id_fits(download_id@ as int, index as int) && e
                == RangeSplitError::PartIdOverflow { download_id, index },
        },
{
    let id = match part_id(download_id, index) {
        Ok(id) => id,
        Err(e) => return Err(e),
    };
    let end_byte = match end {
        Some(e) => Some(Bytes::new(e)),
        None => None,
    };
    Ok(
        DownloadPart {
            id,
            download_id,
            index,
            start_byte: Bytes::new(start),
            end_byte,
            current_byte: Bytes::new(current),
            status: PartStatus::Idle,
            retry_count: 0,
            updated_at: now_ms,
        },
    )
}

fn part_id(download_id: DownloadId, index: u32) -> (r: Result<PartId, RangeSplitError>)
    ensures
        match r {
            Ok(id) => part_id_fits(download_id@ as int, index as int) && id@ == part_id_value(
                download_id@ as int,
                index as int,
            ),
            Err(e) => !part_id_fits(download_id@ as int, index as int) && e
                == RangeSplitError::PartIdOverflow { download_id, index },
        },
{
    match download_id.get().checked_mul(65536) {
        Some(scaled) => match scaled.checked_add(index as i64 + 1) {
            Some(id) => Ok(PartId::new(id)),
            None => Err(RangeSplitError::PartIdOverflow { download_id, index }),
        },
        None => Err(RangeSplitError::PartIdOverflow { download_id, index }),
    }
}

} // verus!
