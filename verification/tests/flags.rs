use pg_peek::flags::{
    HEAP2_XACT_MASK, HEAP_COMBOCID, HEAP_HASNULL, HEAP_HASVARWIDTH, HEAP_HOT_UPDATED,
    HEAP_KEYS_UPDATED, HEAP_LOCK_MASK, HEAP_MOVED, HEAP_MOVED_IN, HEAP_MOVED_OFF, HEAP_ONLY_TUPLE,
    HEAP_XACT_MASK, HEAP_XMAX_EXCL_LOCK, HEAP_XMAX_KEYSHR_LOCK, HEAP_XMAX_SHR_LOCK,
    HEAP_XMIN_COMMITTED, HEAP_XMIN_FROZEN, HEAP_XMIN_INVALID, PD_ALL_VISIBLE, PD_HAS_FREE_LINES,
    PD_PAGE_FULL,
};
use pg_peek::{Infomask, Infomask2, LPFlags, PageFlags};

#[test]
fn page_flags_keep_the_three_known_bits() {
    let flags = PageFlags::from_bits_truncate(0xFFFF);
    assert_eq!(flags.bits, 0x0007);
    assert!(flags.has_free_lines());
    assert!(flags.is_page_full());
    assert!(flags.is_all_visible());
}

#[test]
fn page_flags_named_bits() {
    let flags = PageFlags::from_bits_truncate(0x0005);
    assert_eq!(flags.bits, 0x0005);
    assert!(flags.has_free_lines());
    assert!(!flags.is_page_full());
    assert!(flags.is_all_visible());
    assert!(flags.contains(PD_HAS_FREE_LINES | PD_ALL_VISIBLE));
    assert!(!flags.contains(PD_PAGE_FULL));
    let none = PageFlags::from_bits_truncate(0xFFF8);
    assert_eq!(none.bits, 0);
    assert!(!none.has_free_lines());
}

#[test]
fn line_pointer_status_keeps_two_bits() {
    assert_eq!(LPFlags::from_bits_truncate(0).bits, 0);
    assert_eq!(LPFlags::from_bits_truncate(1).bits, 1);
    assert_eq!(LPFlags::from_bits_truncate(2).bits, 2);
    assert_eq!(LPFlags::from_bits_truncate(3).bits, 3);
    assert_eq!(LPFlags::from_bits_truncate(0xFD).bits, 1);
    assert_eq!(LPFlags::from_bits_truncate(0x06).bits, 2);
}

#[test]
fn line_pointer_status_is_exactly_one_of_four() {
    let unused = LPFlags::from_bits_truncate(0);
    assert!(unused.is_unused() && !unused.is_normal());
    assert!(!unused.is_redirect() && !unused.is_dead());
    let normal = LPFlags::from_bits_truncate(1);
    assert!(!normal.is_unused() && normal.is_normal());
    assert!(!normal.is_redirect() && !normal.is_dead());
    let redirect = LPFlags::from_bits_truncate(2);
    assert!(!redirect.is_unused() && !redirect.is_normal() && redirect.is_redirect());
    let dead = LPFlags::from_bits_truncate(3);
    assert!(!dead.is_unused() && !dead.is_normal() && !dead.is_redirect() && dead.is_dead());
}

#[test]
fn infomask2_drops_the_two_unknown_bits() {
    let flags = Infomask2::from_bits_truncate(0xFFFF);
    assert_eq!(flags.bits, 0xE7FF);
    assert_eq!(flags.attribute_count(), 2047);
    assert!(flags.keys_updated() && flags.hot_updated() && flags.only_tuple());
    assert!(flags.contains(HEAP2_XACT_MASK));
}

#[test]
fn infomask2_attribute_count_is_the_low_eleven_bits() {
    let flags = Infomask2::from_bits_truncate(0x4003);
    assert_eq!(flags.bits, 0x4003);
    assert_eq!(flags.attribute_count(), 3);
    assert!(flags.hot_updated());
    assert!(!flags.keys_updated());
    assert!(!flags.only_tuple());
    assert!(flags.contains(HEAP_HOT_UPDATED));
    assert!(!flags.contains(HEAP_KEYS_UPDATED | HEAP_ONLY_TUPLE));
    assert_eq!(Infomask2::from_bits_truncate(0x1800).bits, 0);
    assert_eq!(Infomask2::from_bits_truncate(0x1800).attribute_count(), 0);
}

#[test]
fn infomask_keeps_every_bit() {
    let flags = Infomask::from_bits_truncate(0xFFFF);
    assert_eq!(flags.bits, 0xFFFF);
    assert!(flags.has_null());
    assert!(flags.contains(HEAP_XACT_MASK));
    let some = Infomask::from_bits_truncate(0x0902);
    assert_eq!(some.bits, 0x0902);
    assert!(!some.has_null());
    assert!(some.contains(HEAP_HASVARWIDTH));
    assert!(some.contains(HEAP_XMIN_COMMITTED));
    assert!(!some.contains(HEAP_XMIN_FROZEN));
    assert!(!some.contains(HEAP_COMBOCID));
}

#[test]
fn composite_masks_are_the_unions_of_their_bits() {
    assert_eq!(HEAP_XMAX_SHR_LOCK, HEAP_XMAX_EXCL_LOCK | HEAP_XMAX_KEYSHR_LOCK);
    assert_eq!(HEAP_LOCK_MASK, HEAP_XMAX_SHR_LOCK | HEAP_XMAX_EXCL_LOCK | HEAP_XMAX_KEYSHR_LOCK);
    assert_eq!(HEAP_XMIN_FROZEN, HEAP_XMIN_COMMITTED | HEAP_XMIN_INVALID);
    assert_eq!(HEAP_MOVED, HEAP_MOVED_OFF | HEAP_MOVED_IN);
    assert_eq!(HEAP2_XACT_MASK, HEAP_KEYS_UPDATED | HEAP_HOT_UPDATED | HEAP_ONLY_TUPLE);
    assert_eq!(HEAP_HASNULL, 1);
}
