use rsmi_wrapper::flags::{InitFlags, INIT_FLAG_ALL_GPUS, INIT_FLAG_RESRV_TEST1};

#[test]
fn named_option_bits() {
    assert_eq!(InitFlags::empty().bits(), 0);
    assert_eq!(InitFlags::all_gpus().bits(), 0x1);
    assert_eq!(InitFlags::reserved_test1().bits(), 0x800_0000_0000_0000);
    assert_eq!(InitFlags::all().bits(), INIT_FLAG_ALL_GPUS | INIT_FLAG_RESRV_TEST1);
    assert_eq!(INIT_FLAG_ALL_GPUS & INIT_FLAG_RESRV_TEST1, 0);
}

#[test]
fn union_twice_equals_union_once() {
    let once = InitFlags::empty().union(InitFlags::all_gpus());
    let twice = once.union(InitFlags::all_gpus());
    assert_eq!(once, twice);
    let both = InitFlags::all_gpus().union(InitFlags::reserved_test1());
    assert_eq!(both.union(InitFlags::reserved_test1()), both);
    assert_eq!(both, InitFlags::reserved_test1().union(InitFlags::all_gpus()));
}

#[test]
fn contains_and_insert() {
    let mut f = InitFlags::empty();
    assert!(f.is_empty());
    assert!(!f.contains(InitFlags::all_gpus()));
    f.insert(InitFlags::all_gpus());
    assert!(f.contains(InitFlags::all_gpus()));
    assert!(!f.contains(InitFlags::reserved_test1()));
    assert!(!f.is_empty());
}

#[test]
fn truncation_drops_unknown_bits() {
    assert_eq!(InitFlags::from_bits_truncate(0xFF).bits(), 0x1);
    assert_eq!(InitFlags::from_bits_truncate(u64::MAX), InitFlags::all());
}
