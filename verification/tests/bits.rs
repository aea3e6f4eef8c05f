use rondos::bits::BitAccess;

#[test]
fn single_bits_u16() {
    let mut w: u16 = 0;
    w.set_bit(8, true);
    assert_eq!(w, 0x100);
    assert!(w.get_bit(8));
    assert!(!w.get_bit(7));
    w.set_bit(15, true);
    w.set_bit(8, false);
    assert_eq!(w, 0x8000);
}

#[test]
fn bit_ranges_u16() {
    let mut w: u16 = 0;
    w.set_bits(13, 15, 0b10);
    assert_eq!(w, 0b10 << 13);
    assert_eq!(w.get_bits(13, 15), 0b10);
    w.set_bits(9, 12, 0b111);
    assert_eq!(w.get_bits(9, 12), 0b111);
    assert_eq!(w.get_bits(13, 15), 0b10);
    w.set_bits(13, 15, 0b01);
    assert_eq!(w.get_bits(13, 15), 0b01);
}

#[test]
fn bit_ranges_u32() {
    let w: u32 = 0xdeadb5a7;
    assert_eq!(w.get_bits(12, 32), 0xdeadb);
    assert_eq!(w.get_bits(0, 12), 0x5a7);
    assert!(w.get_bit(0));
    let mut v: u32 = 0;
    v.set_bits(12, 32, 0xfffff);
    assert_eq!(v, 0xfffff000);
}

#[test]
fn bit_ranges_u8() {
    let mut b: u8 = 0;
    b.set_bit(5, true);
    assert_eq!(b, 0x20);
    assert_eq!(b.get_bits(4, 8), 0b0010);
    b.set_bits(0, 4, 0b1010);
    assert_eq!(b, 0x2a);
    assert!(!b.get_bit(0));
    assert!(b.get_bit(1));
}
