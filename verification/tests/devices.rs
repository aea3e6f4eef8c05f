use rondos::io::serial::{line_sts_input_full, line_sts_output_empty, SerialPort};
use rondos::io::vga::{disable_cursor, enable_cursor, update_cursor};
use rondos::keyboard::scancode_to_char;
use rondos::pic::{end_of_interrupt, eoi_writes, pic_init, pit_configure_channel, pit_count};

#[test]
fn pic_init_sequence() {
    let w: Vec<(u16, u8)> = pic_init().iter().map(|p| (p.port, p.data)).collect();
    assert_eq!(
        w,
        vec![
            (0x21, 0xff),
            (0xa1, 0xff),
            (0x20, 0x11),
            (0x21, 0x20),
            (0x21, 0x04),
            (0x21, 0x01),
            (0xa0, 0x11),
            (0xa1, 0x28),
            (0xa1, 0x02),
            (0xa1, 0x01),
            (0x21, 0x00),
            (0xa1, 0x00),
        ]
    );
}

#[test]
fn pit_count_boundaries() {
    // Below 19 cycles per second the counter would overflow: forced to
    // 0, which the timer reads as 65536.
    assert_eq!(pit_count(18), 0);
    assert_eq!(pit_count(0), 0);
    // Above the oscillator the quotient would be 0: forced to 2.
    assert_eq!(pit_count(1_193_181), 2);
    assert_eq!(pit_count(u32::MAX), 2);
    // In range the count is the oscillator over the frequency, rounded.
    assert_eq!(pit_count(100), 11932);
    assert_eq!(pit_count(19), 62799);
    assert_eq!(pit_count(1_193_180), 1);
}

#[test]
fn pit_configure_writes() {
    let w = pit_configure_channel(0, 2, 100);
    assert_eq!(w.len(), 3);
    assert_eq!((w[0].port, w[0].data), (0x43, 0x34));
    assert_eq!((w[1].port, w[1].data), (0x40, (11932u16 & 0xff) as u8));
    assert_eq!((w[2].port, w[2].data), (0x40, (11932u16 >> 8) as u8));

    let w2 = pit_configure_channel(2, 3, 440);
    assert_eq!(w2[0].port, 0x43);
    assert_eq!(w2[0].data, (2u16 << 6 | 0x30 | 3 << 1) as u8);
    assert_eq!(w2[1].port, 0x42);
}

#[test]
fn eoi_by_vector() {
    let ack = end_of_interrupt(0x20);
    assert_eq!((ack.port, ack.data), (0x20, 0x20));

    // Master-routed vectors acknowledge the master alone.
    let w = eoi_writes(0x20);
    assert_eq!(w.len(), 1);
    assert_eq!((w[0].port, w[0].data), (0x20, 0x20));

    // Slave-routed vectors acknowledge the slave, then the master.
    let w = eoi_writes(0x28);
    assert_eq!(w.len(), 2);
    assert_eq!((w[0].port, w[0].data), (0xa0, 0x20));
    assert_eq!((w[1].port, w[1].data), (0x20, 0x20));

    // No cascaded controller sources vector 3 or vector 48.
    assert!(eoi_writes(3).is_empty());
    assert!(eoi_writes(48).is_empty());
}

#[test]
fn serial_init_sequence() {
    let port = SerialPort::new(0x3f8);
    let w: Vec<(u16, u8)> = port.init().iter().map(|p| (p.port, p.data)).collect();
    assert_eq!(
        w,
        vec![
            (0x3f9, 0x00),
            (0x3fb, 0x80),
            (0x3f8, 0x03),
            (0x3f9, 0x00),
            (0x3fb, 0x03),
            (0x3fa, 0xc7),
            (0x3fc, 0x0b),
            (0x3f9, 0x01),
        ]
    );
}

#[test]
fn serial_send_renders_rubout() {
    let port = SerialPort::new(0x3f8);
    let w = port.send(8);
    assert_eq!(w.len(), 3);
    assert_eq!((w[0].port, w[0].data), (0x3f8, 8));
    assert_eq!((w[1].port, w[1].data), (0x3f8, b' '));
    assert_eq!((w[2].port, w[2].data), (0x3f8, 8));
    let w = port.send(0x7f);
    assert_eq!(w.len(), 3);
    let w = port.send(b'A');
    assert_eq!(w.len(), 1);
    assert_eq!((w[0].port, w[0].data), (0x3f8, b'A'));
    let raw = port.send_raw(0x7f);
    assert_eq!(raw.len(), 1);
    assert_eq!((raw[0].port, raw[0].data), (0x3f8, 0x7f));
}

#[test]
fn serial_line_status_bits() {
    assert!(line_sts_input_full(0x01));
    assert!(!line_sts_input_full(0x20));
    assert!(line_sts_output_empty(0x20));
    assert!(!line_sts_output_empty(0x01));
    assert!(line_sts_output_empty(0x61));
}

#[test]
fn cursor_write_plans() {
    let w = update_cursor(24, 10);
    let pos = 24 * 80 + 10;
    assert_eq!((w[0].port, w[0].data), (0x3d4, 0x0f));
    assert_eq!((w[1].port, w[1].data), (0x3d5, (pos & 0xff) as u8));
    assert_eq!((w[2].port, w[2].data), (0x3d4, 0x0e));
    assert_eq!((w[3].port, w[3].data), (0x3d5, (pos >> 8) as u8));

    let w = enable_cursor(2, 13, 0xff, 0xff);
    assert_eq!(w[1].data, 0xc0 | 2);
    assert_eq!(w[3].data, 0xe0 | 13);

    let w = disable_cursor();
    assert_eq!((w[0].port, w[0].data), (0x3d4, 0x0a));
    assert_eq!((w[1].port, w[1].data), (0x3d5, 0x20));
}

#[test]
fn scancode_map() {
    assert_eq!(scancode_to_char(0x02), Some('1'));
    assert_eq!(scancode_to_char(0x0a), Some('9'));
    assert_eq!(scancode_to_char(0x0b), Some('0'));
    assert_eq!(scancode_to_char(0x10), Some('q'));
    assert_eq!(scancode_to_char(0x19), Some('p'));
    assert_eq!(scancode_to_char(0x1c), Some('\n'));
    assert_eq!(scancode_to_char(0x0e), Some('\u{8}'));
    assert_eq!(scancode_to_char(0x1e), Some('a'));
    assert_eq!(scancode_to_char(0x26), Some('l'));
    assert_eq!(scancode_to_char(0x2c), Some('z'));
    assert_eq!(scancode_to_char(0x32), Some('m'));
    assert_eq!(scancode_to_char(0x39), Some(' '));
    assert_eq!(scancode_to_char(0x3a), Some('?'));
    assert_eq!(scancode_to_char(0x80), None);
    assert_eq!(scancode_to_char(0xff), None);
}
