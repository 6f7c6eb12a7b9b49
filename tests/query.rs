use region::{AreaInfo, Error, Protection, QueryScope, Region, Visit};

fn info(address: usize, size: usize, protection: u32, team: i32) -> AreaInfo {
    AreaInfo { area: 1, address, size, protection, team }
}

#[test]
fn region_of_own_read_write_area() {
    let region = Region::from_area(&info(0x10_0000, 4096, 3, 42), 42);
    assert_eq!(region.protection(), Protection::READ_WRITE);
    assert_eq!(region.len(), 4096);
    assert_eq!(region.as_ptr(), 0x10_0000);
    assert_eq!(region.as_range(), 0x10_0000..0x10_1000);
    assert!(!region.is_guarded());
    assert!(!region.is_shared());
    assert!(region.is_committed());
    assert!(region.is_readable());
    assert!(region.is_writable());
    assert!(!region.is_executable());
}

#[test]
fn region_of_another_team_is_shared() {
    let region = Region::from_area(&info(0x10_0000, 8192, 5, 7), 42);
    assert!(region.is_shared());
    assert_eq!(region.protection(), Protection::READ_EXECUTE);
}

#[test]
fn region_range_saturates() {
    let region = Region::from_area(&info(usize::MAX - 4095, 8192, 0, 1), 1);
    assert_eq!(region.as_range().end, usize::MAX);
}

#[test]
fn scope_rejects_area_smaller_than_the_query() {
    assert!(matches!(
        QueryScope::new(&info(0x10_0000, 4096, 3, 1), 0x10_0000, 8192),
        Err(Error::UnmappedRegion)
    ));
}

#[test]
fn scope_covers_the_queried_range() {
    let scope = QueryScope::new(&info(0x10_0000, 8192, 3, 1), 0x10_0000, 4096).unwrap();
    assert_eq!(scope, QueryScope { origin: 0x10_0000, upper: 0x10_1000 });
    assert_eq!(scope.upper_bound(), 0x10_1000);
    let top = QueryScope::new(&info(0x10_0000, usize::MAX, 3, 1), usize::MAX - 10, 100).unwrap();
    assert_eq!(top.upper_bound(), usize::MAX);
}

#[test]
fn scope_skips_yields_and_stops() {
    let scope = QueryScope { origin: 0x10_0000, upper: 0x10_2000 };
    let before = Region::from_area(&info(0x0f_0000, 0x1_0000, 1, 1), 1);
    let inside = Region::from_area(&info(0x10_0000, 0x1000, 1, 1), 1);
    let overlapping = Region::from_area(&info(0x0f_f000, 0x2000, 1, 1), 1);
    let after = Region::from_area(&info(0x10_2000, 0x1000, 1, 1), 1);
    assert_eq!(scope.visit(&before), Visit::Skip);
    assert_eq!(scope.visit(&inside), Visit::Yield);
    assert_eq!(scope.visit(&overlapping), Visit::Yield);
    assert_eq!(scope.visit(&after), Visit::Stop);
}
