use particl_indexer::db::{sum_of_range, toprec, unusual_lowest, HeightSummary};
use particl_indexer::error::IngestError;

#[test]
fn no_persisted_height_means_no_top_height() {
    assert_eq!(toprec(None), Ok(None));
}

#[test]
fn a_gapless_range_is_accepted() {
    assert_eq!(toprec(Some(HeightSummary { lowest: 0, top: 0, sum: 0 })), Ok(Some(0)));
    assert_eq!(toprec(Some(HeightSummary { lowest: 0, top: 3, sum: 6 })), Ok(Some(3)));
    assert_eq!(toprec(Some(HeightSummary { lowest: 0, top: 616959, sum: 190319512320 })), Ok(Some(616959)));
    assert_eq!(toprec(Some(HeightSummary { lowest: 5, top: 7, sum: 18 })), Ok(Some(7)));
}

#[test]
fn a_gap_is_refused() {
    assert_eq!(
        toprec(Some(HeightSummary { lowest: 0, top: 3, sum: 4 })),
        Err(IngestError::InconsistentHeights { expected: 6, stored: 4 })
    );
}

#[test]
fn a_duplicate_is_refused() {
    assert_eq!(
        toprec(Some(HeightSummary { lowest: 0, top: 3, sum: 8 })),
        Err(IngestError::InconsistentHeights { expected: 6, stored: 8 })
    );
}

#[test]
fn a_sum_beyond_64_bits_matches_no_stored_sum() {
    let expected: u128 = (u64::MAX as u128) * (u64::MAX as u128 + 1) / 2;
    assert_eq!(
        toprec(Some(HeightSummary { lowest: 0, top: u64::MAX, sum: u64::MAX })),
        Err(IngestError::InconsistentHeights { expected: expected, stored: u64::MAX })
    );
}

#[test]
fn an_empty_range_sums_to_zero() {
    assert_eq!(toprec(Some(HeightSummary { lowest: 4, top: 3, sum: 0 })), Ok(Some(3)));
    assert_eq!(
        toprec(Some(HeightSummary { lowest: 4, top: 3, sum: 7 })),
        Err(IngestError::InconsistentHeights { expected: 0, stored: 7 })
    );
}

#[test]
fn sum_of_range_is_the_sum_of_the_integers() {
    for (lo, hi) in [(0u64, 0u64), (0, 1), (0, 10), (3, 3), (3, 9), (10, 3), (1, 1000), (999, 2001)] {
        let expected: u128 = (lo..=hi).map(|h| h as u128).sum();
        assert_eq!(sum_of_range(lo, hi), expected, "range {}..={}", lo, hi);
    }
    assert_eq!(sum_of_range(0, 100), 5050);
    assert_eq!(sum_of_range(u64::MAX, u64::MAX), u64::MAX as u128);
    assert_eq!(sum_of_range(u64::MAX - 1, u64::MAX), 2 * (u64::MAX as u128) - 1);
    assert_eq!(sum_of_range(0, u64::MAX), (u64::MAX as u128) * (1u128 << 63));
}

#[test]
fn a_lowest_height_above_zero_is_unusual() {
    assert_eq!(unusual_lowest(None), None);
    assert_eq!(unusual_lowest(Some(HeightSummary { lowest: 0, top: 9, sum: 45 })), None);
    assert_eq!(unusual_lowest(Some(HeightSummary { lowest: 5, top: 7, sum: 18 })), Some(5));
}
