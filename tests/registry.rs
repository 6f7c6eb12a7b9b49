use region::{plan_protect, AreaInfo, Error, Protection, ProtectRequest, Registry};

fn area(id: i32, address: usize, pages: usize) -> AreaInfo {
    AreaInfo { area: id, address, size: pages * 4096, protection: 3, team: 1 }
}

#[test]
fn registered_pages_resolve_to_their_area() {
    let mut registry = Registry::new();
    let info = area(5, 0x10_0000, 3);
    assert!(Registry::is_page_span(&info));
    registry.register(&info);
    assert_eq!(registry.page_count(), 3);
    assert_eq!(registry.lookup(0x10_0000), Ok(5));
    assert_eq!(registry.lookup(0x10_1000), Ok(5));
    assert_eq!(registry.lookup(0x10_2000), Ok(5));
    assert_eq!(registry.lookup(0x10_2fff), Ok(5));
    assert_eq!(registry.lookup(0x10_0abc), Ok(5));
}

#[test]
fn pages_outside_the_area_are_unmapped() {
    let mut registry = Registry::new();
    registry.register(&area(5, 0x10_0000, 2));
    assert!(matches!(registry.lookup(0x0f_ffff), Err(Error::UnmappedRegion)));
    assert!(matches!(registry.lookup(0x10_2000), Err(Error::UnmappedRegion)));
    assert!(matches!(Registry::new().lookup(0), Err(Error::UnmappedRegion)));
}

#[test]
fn unregistered_area_is_unmapped() {
    let mut registry = Registry::new();
    let info = area(8, 0x20_0000, 4);
    registry.register(&info);
    registry.unregister(&info);
    assert_eq!(registry.page_count(), 0);
    for offset in [0usize, 0x1000, 0x2fff, 0x3000, 0x3fff] {
        assert!(matches!(registry.lookup(0x20_0000 + offset), Err(Error::UnmappedRegion)));
    }
}

#[test]
fn unregistering_leaves_other_areas() {
    let mut registry = Registry::new();
    let first = area(1, 0x10_0000, 2);
    let second = area(2, 0x10_2000, 1);
    registry.register(&first);
    registry.register(&second);
    registry.unregister(&first);
    assert_eq!(registry.page_count(), 1);
    assert!(matches!(registry.lookup(0x10_1000), Err(Error::UnmappedRegion)));
    assert_eq!(registry.lookup(0x10_2000), Ok(2));
}

#[test]
fn many_areas_keep_separate_pages() {
    let mut registry = Registry::new();
    let areas: Vec<AreaInfo> =
        (0..8).map(|i| area(100 + i as i32, 0x40_0000 + i * 0x3000, 3)).collect();
    for info in &areas {
        registry.register(info);
    }
    assert_eq!(registry.page_count(), 24);
    for info in &areas {
        for page in 0..3 {
            assert_eq!(registry.lookup(info.address + page * 4096), Ok(info.area));
        }
    }
}

#[test]
fn empty_area_registers_nothing() {
    let mut registry = Registry::new();
    registry.register(&area(4, 0x10_0000, 0));
    assert_eq!(registry.page_count(), 0);
}

#[test]
fn area_at_the_top_of_the_address_space() {
    let mut registry = Registry::new();
    let info = area(6, usize::MAX - 0x1fff, 2);
    assert!(Registry::is_page_span(&info));
    registry.register(&info);
    assert_eq!(registry.lookup(usize::MAX), Ok(6));
    assert_eq!(registry.lookup(usize::MAX - 0x1fff), Ok(6));
    registry.unregister(&info);
    assert_eq!(registry.page_count(), 0);
}

#[test]
fn page_span_check() {
    assert!(Registry::is_page_span(&area(1, 0x1000, 1)));
    assert!(!Registry::is_page_span(&AreaInfo { area: 1, address: 0x1001, size: 4096, protection: 0, team: 0 }));
    assert!(!Registry::is_page_span(&AreaInfo { area: 1, address: 0x1000, size: 100, protection: 0, team: 0 }));
    assert!(!Registry::is_page_span(&area(1, usize::MAX - 0xfff, 2)));
}

#[test]
fn protect_without_entry_is_unmapped() {
    let registry = Registry::new();
    assert!(matches!(
        plan_protect(&registry, 0x10_0000, Protection::READ),
        Err(Error::UnmappedRegion)
    ));
}

#[test]
fn protect_targets_the_owning_area() {
    let mut registry = Registry::new();
    registry.register(&area(12, 0x10_0000, 2));
    assert_eq!(
        plan_protect(&registry, 0x10_1234, Protection::READ_EXECUTE),
        Ok(ProtectRequest { area: 12, protection: 5 })
    );
    assert!(matches!(
        plan_protect(&registry, 0x10_2000, Protection::READ),
        Err(Error::UnmappedRegion)
    ));
}
