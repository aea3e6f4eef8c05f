use rondos::intr::{HandlerKind, InterruptEntry, InterruptOption};
use rondos::reg::PrivilegeLevel;

#[test]
fn default_option_word_is_absent() {
    let opt = InterruptOption::default();
    assert_eq!(opt.raw(), 0x0e00);
    assert!(!opt.is_trap());
    assert_eq!(opt.privilege_level(), 0);
    assert!(!opt.is_present());
}

#[test]
fn option_new_reads_back() {
    let opt = InterruptOption::new(true, PrivilegeLevel::Ring3, true);
    assert!(opt.is_trap());
    assert_eq!(opt.privilege_level(), 3);
    assert!(opt.is_present());
    assert_eq!(opt.raw() & 0x0e00, 0x0e00);
}

#[test]
fn option_round_trip_any_order() {
    // The same three fields set in different orders give the same word
    // and read back the values last set.
    let mut a = InterruptOption::default();
    a.set_trap(true);
    a.set_privilege_level(2);
    a.set_present(true);

    let mut b = InterruptOption::default();
    b.set_present(true);
    b.set_trap(true);
    b.set_privilege_level(2);

    let mut c = InterruptOption::default();
    c.set_privilege_level(2);
    c.set_present(true);
    c.set_trap(true);

    assert_eq!(a.raw(), b.raw());
    assert_eq!(b.raw(), c.raw());
    assert!(a.is_trap());
    assert_eq!(a.privilege_level(), 2);
    assert!(a.is_present());
    assert_eq!(a.raw() & 0x0e00, 0x0e00);
}

#[test]
fn option_last_write_wins() {
    let mut opt = InterruptOption::default();
    opt.set_privilege_level(3);
    opt.set_privilege_level(1);
    assert_eq!(opt.privilege_level(), 1);
    opt.set_trap(true);
    opt.set_trap(false);
    assert!(!opt.is_trap());
    assert_eq!(opt.raw() & 0x0e00, 0x0e00);
}

#[test]
fn option_raw_word_shape() {
    let opt = InterruptOption::new(true, PrivilegeLevel::Ring2, true);
    // present | dpl=2 | must-be-one | trap: 0x8000 | 0x4000 | 0x0e00 | 0x100.
    assert_eq!(opt.raw(), 0xcf00);
}

#[test]
fn entry_option_overwrite() {
    let mut e = InterruptEntry::new(HandlerKind::Plain);
    assert!(!e.options().is_present());
    let mut opt = InterruptOption::default();
    opt.set_present(true);
    opt.set_trap(true);
    e.set_option(opt);
    assert!(e.options().is_present());
    assert!(e.options().is_trap());
    // The address words are untouched.
    assert_eq!(e.pointer(), 0);
}
