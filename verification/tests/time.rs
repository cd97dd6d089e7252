use dao_proposal_single_instant::time::{BlockInfo, Duration, Expiration, TimeError};

fn block(height: u64, seconds: u64) -> BlockInfo {
    BlockInfo { height, time_nanos: seconds * 1_000_000_000 }
}

#[test]
fn height_expiration_is_reached_at_its_height() {
    let e = Expiration::AtHeight(10);
    assert!(!e.is_expired(&block(9, 0)));
    assert!(e.is_expired(&block(10, 0)));
    assert!(e.is_expired(&block(11, 0)));
}

#[test]
fn time_expiration_is_reached_at_its_time() {
    let e = Expiration::AtTime(5_000_000_000);
    assert!(!e.is_expired(&BlockInfo { height: 1, time_nanos: 4_999_999_999 }));
    assert!(e.is_expired(&BlockInfo { height: 1, time_nanos: 5_000_000_000 }));
}

#[test]
fn never_does_not_expire() {
    assert!(!Expiration::Never.is_expired(&block(u64::MAX, 18_000_000_000)));
}

#[test]
fn duration_after_block() {
    assert_eq!(Duration::Height(5).after(&block(7, 3)), Some(Expiration::AtHeight(12)));
    assert_eq!(Duration::Time(2).after(&block(7, 3)), Some(Expiration::AtTime(5_000_000_000)));
    assert_eq!(Duration::Height(0).after(&block(7, 3)), Some(Expiration::AtHeight(7)));
}

#[test]
fn duration_after_block_overflows() {
    assert_eq!(Duration::Height(1).after(&block(u64::MAX, 0)), None);
    assert_eq!(Duration::Time(u64::MAX).after(&block(0, 0)), None);
    assert_eq!(
        Duration::Time(1).after(&BlockInfo { height: 0, time_nanos: u64::MAX }),
        None
    );
}

#[test]
fn expiration_plus_duration() {
    assert_eq!(
        Expiration::AtHeight(10).plus(&Duration::Height(5)),
        Ok(Expiration::AtHeight(15))
    );
    assert_eq!(
        Expiration::AtTime(1_000_000_000).plus(&Duration::Time(3)),
        Ok(Expiration::AtTime(4_000_000_000))
    );
    assert_eq!(Expiration::Never.plus(&Duration::Time(3)), Ok(Expiration::Never));
    assert_eq!(Expiration::Never.plus(&Duration::Height(3)), Ok(Expiration::Never));
}

#[test]
fn expiration_plus_duration_refuses() {
    assert_eq!(
        Expiration::AtHeight(10).plus(&Duration::Time(5)),
        Err(TimeError::UnitMismatch)
    );
    assert_eq!(
        Expiration::AtTime(10).plus(&Duration::Height(5)),
        Err(TimeError::UnitMismatch)
    );
    assert_eq!(
        Expiration::AtHeight(u64::MAX).plus(&Duration::Height(1)),
        Err(TimeError::Overflow)
    );
    assert_eq!(
        Expiration::AtTime(1).plus(&Duration::Time(u64::MAX)),
        Err(TimeError::Overflow)
    );
}

#[test]
fn same_unit() {
    assert!(Duration::Height(1).has_same_unit(&Duration::Height(9)));
    assert!(Duration::Time(1).has_same_unit(&Duration::Time(9)));
    assert!(!Duration::Time(1).has_same_unit(&Duration::Height(1)));
}
