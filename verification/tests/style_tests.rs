use xcb_imdkit::InputStyle;

#[test]
fn style_bits() {
    assert_eq!(InputStyle::empty().bits(), 0);
    assert_eq!(InputStyle::preedit_callbacks().bits(), 2);
    assert_eq!(InputStyle::all().bits(), 2);
}

#[test]
fn style_from_bits() {
    assert_eq!(InputStyle::from_bits(0), Some(InputStyle::empty()));
    assert_eq!(InputStyle::from_bits(2), Some(InputStyle::preedit_callbacks()));
    assert_eq!(InputStyle::from_bits(1), None);
    assert_eq!(InputStyle::from_bits(6), None);
}

#[test]
fn style_from_bits_truncate() {
    assert_eq!(InputStyle::from_bits_truncate(0xffff_ffff).bits(), 2);
    assert_eq!(InputStyle::from_bits_truncate(5).bits(), 0);
    assert_eq!(InputStyle::from_bits_truncate(6).bits(), 2);
}

#[test]
fn style_set_operations() {
    let e = InputStyle::empty();
    let p = InputStyle::preedit_callbacks();
    assert!(e.is_empty());
    assert!(!p.is_empty());
    assert!(p.contains(e));
    assert!(p.contains(p));
    assert!(!e.contains(p));
    assert_eq!(e.union(p), p);
    assert_eq!(p.union(e), p);
    assert_eq!(e.union(e), e);
}

#[test]
fn style_more_operations() {
    let e = InputStyle::empty();
    let p = InputStyle::preedit_callbacks();
    assert!(p.is_all());
    assert!(!e.is_all());
    assert!(p.intersects(p));
    assert!(!p.intersects(e));
    assert!(!e.intersects(e));
    assert_eq!(p.intersection(p), p);
    assert_eq!(p.intersection(e), e);
    assert_eq!(p.difference(p), e);
    assert_eq!(p.difference(e), p);
    assert_eq!(e.difference(p), e);
    assert_eq!(p.symmetric_difference(p), e);
    assert_eq!(e.symmetric_difference(p), p);
    assert_eq!(p.complement(), e);
    assert_eq!(e.complement(), p);
}

#[test]
fn style_mutations() {
    let mut s = InputStyle::empty();
    s.insert(InputStyle::preedit_callbacks());
    assert_eq!(s.bits(), 2);
    s.insert(InputStyle::preedit_callbacks());
    assert_eq!(s.bits(), 2);
    s.remove(InputStyle::preedit_callbacks());
    assert!(s.is_empty());
    s.toggle(InputStyle::preedit_callbacks());
    assert_eq!(s.bits(), 2);
    s.toggle(InputStyle::preedit_callbacks());
    assert_eq!(s.bits(), 0);
    s.set(InputStyle::preedit_callbacks(), true);
    assert_eq!(s.bits(), 2);
    s.set(InputStyle::preedit_callbacks(), false);
    assert_eq!(s.bits(), 0);
    s.remove(InputStyle::empty());
    assert_eq!(s.bits(), 0);
}

#[test]
fn style_debug_names() {
    assert_eq!(InputStyle::empty().debug_string(), "DEFAULT");
    assert_eq!(InputStyle::preedit_callbacks().debug_string(), "PREEDIT_CALLBACKS");
    assert_eq!(InputStyle::from_bits_truncate(7).debug_string(), "PREEDIT_CALLBACKS");
}

#[test]
fn style_operators() {
    let e = InputStyle::empty();
    let p = InputStyle::preedit_callbacks();
    assert_eq!(e | p, p);
    assert_eq!(e | e, e);
    assert_eq!(p & p, p);
    assert_eq!(p & e, e);
    assert_eq!(p ^ p, e);
    assert_eq!(p ^ e, p);
    assert_eq!(p - p, e);
    assert_eq!(p - e, p);
    assert_eq!(!p, e);
    assert_eq!(!e, p);
    let mut s = e;
    s |= p;
    assert_eq!(s, p);
    s &= e;
    assert_eq!(s, e);
    s ^= p;
    assert_eq!(s, p);
    s -= p;
    assert_eq!(s, e);
}

#[test]
fn style_order_and_hash() {
    let e = InputStyle::empty();
    let p = InputStyle::preedit_callbacks();
    assert!(e < p);
    assert_eq!(std::cmp::max(e, p), p);
    let mut set = std::collections::HashSet::new();
    set.insert(p);
    set.insert(InputStyle::all());
    set.insert(e);
    assert_eq!(set.len(), 2);
}
