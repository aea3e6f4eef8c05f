//! Programming of the cascaded interrupt controllers and the interval
//! timer: the initialisation command sequences, the frequency-to-count
//! conversion, and the end-of-interrupt acknowledgment, each as the
//! exact port writes the caller performs.

use vstd::prelude::*;

verus! {

use crate::port::PortWrite;

/// Master controller control port.
pub const PIC0_CTRL: u16 = 0x20;

/// Master controller data port.
pub const PIC0_DATA: u16 = 0x21;

/// Slave controller control port.
pub const PIC1_CTRL: u16 = 0xa0;

/// Slave controller data port.
pub const PIC1_DATA: u16 = 0xa1;

/// Timer control port.
pub const PIT_PORT_CONTROL: u16 = 0x43;

/// Timer counter port for channel 0; a channel's port is this plus the
/// channel number.
pub const PIT_PORT_COUNTER_OFFSET_TO_CHANNEL: u16 = 0x40;

/// The timer's base oscillator, in cycles per second.
pub const PIT_HZ: u32 = 1193180;

/// The twelve writes of the controller initialisation, in order: mask
/// everything, the master's four command words, the slave's four, then
/// unmask everything.
pub open spec fn spec_pic_init_writes() -> Seq<PortWrite> {
    seq![
        PortWrite { port: 0x21, data: 0xff },
        PortWrite { port: 0xa1, data: 0xff },
        PortWrite { port: 0x20, data: 0x11 },
        PortWrite { port: 0x21, data: 0x20 },
        PortWrite { port: 0x21, data: 0x04 },
        PortWrite { port: 0x21, data: 0x01 },
        PortWrite { port: 0xa0, data: 0x11 },
        PortWrite { port: 0xa1, data: 0x28 },
        PortWrite { port: 0xa1, data: 0x02 },
        PortWrite { port: 0xa1, data: 0x01 },
        PortWrite { port: 0x21, data: 0x00 },
        PortWrite { port: 0xa1, data: 0x00 },
    ]
}

/// The write sequence that brings both cascaded controllers into a known,
/// fully unmasked state: mask everything, run the four-word
/// initialisation of the master (vectors 32 to 39, slave cascaded on
/// line 2), the four-word initialisation of the slave (vectors 40 to 47,
/// cascade identity 2), then unmask everything.
pub fn pic_init() -> (r: Vec<PortWrite>)
    ensures
        r@ == spec_pic_init_writes(),
        r@.len() == 12,
        r@[0] == (PortWrite { port: 0x21, data: 0xff }),
        r@[1] == (PortWrite { port: 0xa1, data: 0xff }),
        r@[2] == (PortWrite { port: 0x20, data: 0x11 }),
        r@[3] == (PortWrite { port: 0x21, data: 0x20 }),
        r@[4] == (PortWrite { port: 0x21, data: 0x04 }),
        r@[5] == (PortWrite { port: 0x21, data: 0x01 }),
        r@[6] == (PortWrite { port: 0xa0, data: 0x11 }),
        r@[7] == (PortWrite { port: 0xa1, data: 0x28 }),
        r@[8] == (PortWrite { port: 0xa1, data: 0x02 }),
        r@[9] == (PortWrite { port: 0xa1, data: 0x01 }),
        r@[10] == (PortWrite { port: 0x21, data: 0x00 }),
        r@[11] == (PortWrite { port: 0xa1, data: 0x00 }),
{
    let mut r: Vec<PortWrite> = Vec::new();
    r.push(PortWrite::new(PIC0_DATA, 0xff));
    r.push(PortWrite::new(PIC1_DATA, 0xff));
    // Initialize master: edge triggered, expect a fourth command word.
    r.push(PortWrite::new(PIC0_CTRL, 0x11));
    // Lines 0 to 7 of the master raise vectors 0x20 to 0x27.
    r.push(PortWrite::new(PIC0_DATA, 0x20));
    // The slave hangs off master line 2, coded as a bit position.
    r.push(PortWrite::new(PIC0_DATA, 0x04));
    // 8086 mode, normal end of interrupt.
    r.push(PortWrite::new(PIC0_DATA, 0x01));
    // Initialize slave the same way.
    r.push(PortWrite::new(PIC1_CTRL, 0x11));
    // Lines 0 to 7 of the slave raise vectors 0x28 to 0x2f.
    r.push(PortWrite::new(PIC1_DATA, 0x28));
    // The slave's own cascade identity, coded as a number.
    r.push(PortWrite::new(PIC1_DATA, 0x02));
    r.push(PortWrite::new(PIC1_DATA, 0x01));
    // Unmask all interrupts on both controllers.
    r.push(PortWrite::new(PIC0_DATA, 0x00));
    r.push(PortWrite::new(PIC1_DATA, 0x00));
    proof {
        assert(r@ =~= spec_pic_init_writes());
    }
    r
}

/// The 16-bit reload count for a requested timer frequency: the base
/// oscillator divided by the frequency, rounded to nearest.  A frequency
/// below 19 cycles per second would overflow the counter, so the count is
/// forced to 0, which the timer reads as 65536; a frequency above the
/// oscillator would underflow to 0, so the count is forced to 2, the
/// smallest legal periodic count.
pub open spec fn spec_pit_count(frequency: u32) -> u16 {
    if frequency < 19 {
        0
    } else if frequency > 1193180 {
        2
    } else {
        ((1193180 + frequency / 2) / (frequency as int)) as u16
    }
}

/// The reload count loaded for a requested frequency.
pub fn pit_count(frequency: u32) -> (r: u16)
    ensures
        r == spec_pit_count(frequency),
{
    if frequency < 19 {
        0
    } else if frequency > PIT_HZ {
        2
    } else {
        let c: u32 = (PIT_HZ + frequency / 2) / frequency;
        proof {
            assert(1193180 + frequency / 2 < 65536 * frequency && (1193180 + frequency / 2) / (
            frequency as int) < 65536) by (nonlinear_arith)
                requires
                    19 <= frequency <= 1193180,
            ;
        }
        c as u16
    }
}

/// The write sequence that configures one timer channel: the control
/// word selecting the channel, low-byte-then-high-byte access and the
/// output mode, followed by the two halves of the reload count for the
/// requested frequency.  Channel 0 drives the periodic timer interrupt
/// and channel 2 the speaker; mode 2 is a periodic pulse and mode 3 a
/// square wave.
/// The three writes that configure one timer channel for one frequency.
pub open spec fn spec_pit_writes(channel: u16, mode: u16, frequency: u32) -> Seq<PortWrite> {
    seq![
        PortWrite { port: 0x43, data: ((channel << 6) | 0x30 | (mode << 1)) as u8 },
        PortWrite { port: (0x40 + channel) as u16, data: spec_pit_count(frequency) as u8 },
        PortWrite {
            port: (0x40 + channel) as u16,
            data: (spec_pit_count(frequency) >> 8) as u8,
        },
    ]
}

pub fn pit_configure_channel(channel: u16, mode: u16, frequency: u32) -> (r: Vec<PortWrite>)
    requires
        channel == 0 || channel == 2,
        mode == 2 || mode == 3,
    ensures
        r@ == spec_pit_writes(channel, mode, frequency),
        r@.len() == 3,
        r@[0] == (PortWrite { port: 0x43, data: ((channel << 6) | 0x30 | (mode << 1)) as u8 }),
        r@[1] == (PortWrite {
            port: (0x40 + channel) as u16,
            data: spec_pit_count(frequency) as u8,
        }),
        r@[2] == (PortWrite {
            port: (0x40 + channel) as u16,
            data: (spec_pit_count(frequency) >> 8) as u8,
        }),
{
    let count = pit_count(frequency);
    let mut r: Vec<PortWrite> = Vec::new();
    r.push(PortWrite::new(PIT_PORT_CONTROL, ((channel << 6) | 0x30 | (mode << 1)) as u8));
    r.push(PortWrite::new(PIT_PORT_COUNTER_OFFSET_TO_CHANNEL + channel, count as u8));
    r.push(PortWrite::new(PIT_PORT_COUNTER_OFFSET_TO_CHANNEL + channel, (count >> 8) as u8));
    proof {
        assert(r@ =~= spec_pit_writes(channel, mode, frequency));
    }
    r
}

/// The single acknowledgment write that re-arms the controller whose
/// control port is given.
pub fn end_of_interrupt(pic: u16) -> (w: PortWrite)
    ensures
        w == (PortWrite { port: pic, data: 0x20 }),
{
    PortWrite::new(pic, 0x20)
}

/// The acknowledgment writes a handler owes for a vector before it
/// returns: the master controller for vectors 32 to 39; the slave and
/// then the master for the slave-routed vectors 40 to 47; nothing for a
/// vector no cascaded controller sources.
pub fn eoi_writes(vector: u8) -> (r: Vec<PortWrite>)
    ensures
        32 <= vector < 40 ==> r@.len() == 1 && r@[0] == (PortWrite { port: 0x20, data: 0x20 }),
        40 <= vector < 48 ==> r@.len() == 2 && r@[0] == (PortWrite { port: 0xa0, data: 0x20 })
            && r@[1] == (PortWrite { port: 0x20, data: 0x20 }),
        vector < 32 || vector >= 48 ==> r@.len() == 0,
{
    let mut r: Vec<PortWrite> = Vec::new();
    if 32 <= vector && vector < 40 {
        r.push(end_of_interrupt(PIC0_CTRL));
    } else if 40 <= vector && vector < 48 {
        r.push(end_of_interrupt(PIC1_CTRL));
        r.push(end_of_interrupt(PIC0_CTRL));
    }
    r
}

} // verus!
