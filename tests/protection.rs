use region::{Protection, AREA_EXECUTE, AREA_READ, AREA_WRITE};

const ALL: [Protection; 8] = [
    Protection::NONE,
    Protection::READ,
    Protection::WRITE,
    Protection::EXECUTE,
    Protection::READ_WRITE,
    Protection::READ_EXECUTE,
    Protection::WRITE_EXECUTE,
    Protection::READ_WRITE_EXECUTE,
];

#[test]
fn protection_flags_are_mapped_from_native() {
    let rw = AREA_READ | AREA_WRITE;
    let rwx = rw | AREA_EXECUTE;

    assert_eq!(Protection::from_native(0), Protection::NONE);
    assert_eq!(Protection::from_native(AREA_READ), Protection::READ);
    assert_eq!(Protection::from_native(rw), Protection::READ_WRITE);
    assert_eq!(Protection::from_native(rwx), Protection::READ_WRITE_EXECUTE);
}

#[test]
fn protection_flags_are_mapped_to_native() {
    assert_eq!(Protection::NONE.to_native(), 0);
    assert_eq!(Protection::READ.to_native(), 1);
    assert_eq!(Protection::WRITE.to_native(), 2);
    assert_eq!(Protection::EXECUTE.to_native(), 4);
    assert_eq!(Protection::READ_WRITE.to_native(), 3);
    assert_eq!(Protection::READ_EXECUTE.to_native(), 5);
    assert_eq!(Protection::WRITE_EXECUTE.to_native(), 6);
    assert_eq!(Protection::READ_WRITE_EXECUTE.to_native(), 7);
}

#[test]
fn protection_round_trips_through_native() {
    for p in ALL {
        assert_eq!(Protection::from_native(p.to_native()), p);
    }
}

#[test]
fn native_bits_without_a_right_are_ignored() {
    assert_eq!(Protection::from_native(0x10), Protection::NONE);
    assert_eq!(Protection::from_native(0xffff_fff8 | AREA_WRITE), Protection::WRITE);
    assert_eq!(Protection::from_native(u32::MAX), Protection::READ_WRITE_EXECUTE);
    assert_eq!(Protection::from_native(u32::MAX).to_native(), 7);
}

#[test]
fn protection_union_and_contains() {
    assert_eq!(Protection::READ.union(Protection::WRITE), Protection::READ_WRITE);
    assert_eq!(Protection::READ_EXECUTE.union(Protection::WRITE), Protection::READ_WRITE_EXECUTE);
    assert_eq!(Protection::NONE.union(Protection::NONE), Protection::NONE);
    assert!(Protection::READ_WRITE.contains(Protection::READ));
    assert!(Protection::READ_WRITE.contains(Protection::NONE));
    assert!(!Protection::READ_WRITE.contains(Protection::EXECUTE));
    assert!(!Protection::READ.contains(Protection::READ_WRITE));
}

#[test]
fn protection_rights_queries() {
    assert!(Protection::READ_EXECUTE.is_readable());
    assert!(!Protection::READ_EXECUTE.is_writable());
    assert!(Protection::READ_EXECUTE.is_executable());
    assert_eq!(Protection::from_rights(false, true, true), Protection::WRITE_EXECUTE);
    assert_eq!(Protection::from_rights(false, false, false), Protection::NONE);
}
