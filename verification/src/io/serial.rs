//! The serial line: port layout and the byte protocol of the UART.
//!
//! Every operation is computed as the exact sequence of port writes to
//! perform; the caller carries them out, polling the line-status port
//! between writes with the predicates given here.

use vstd::prelude::*;

verus! {

use crate::port::PortWrite;

/// A serial port interface, named by its base I/O port.
#[derive(Debug)]
pub struct SerialPort(u16);

impl View for SerialPort {
    type V = u16;

    closed spec fn view(&self) -> u16 {
        self.0
    }
}

impl SerialPort {
    /// The six device registers fit above the base port.
    pub open spec fn wf(self) -> bool {
        self@ + 5 <= 0xffff
    }

    /// A serial port interface on the given base port.
    pub fn new(base: u16) -> (r: SerialPort)
        requires
            base + 5 <= 0xffff,
        ensures
            r@ == base,
            r.wf(),
    {
        SerialPort(base)
    }

    /// Base port.
    pub fn port_base(&self) -> (r: u16)
        requires
            self.wf(),
        ensures
            r == self@,
    {
        self.0
    }

    /// Data port: read and write.
    pub fn port_data(&self) -> (r: u16)
        requires
            self.wf(),
        ensures
            r == self@,
    {
        self.port_base()
    }

    /// Interrupt enable port: write only.
    pub fn port_int_en(&self) -> (r: u16)
        requires
            self.wf(),
        ensures
            r == self@ + 1,
    {
        self.port_base() + 1
    }

    /// Fifo control port: write only.
    pub fn port_fifo_ctrl(&self) -> (r: u16)
        requires
            self.wf(),
        ensures
            r == self@ + 2,
    {
        self.port_base() + 2
    }

    /// Line control port: write only.
    pub fn port_line_ctrl(&self) -> (r: u16)
        requires
            self.wf(),
        ensures
            r == self@ + 3,
    {
        self.port_base() + 3
    }

    /// Modem control port: write only.
    pub fn port_modem_ctrl(&self) -> (r: u16)
        requires
            self.wf(),
        ensures
            r == self@ + 4,
    {
        self.port_base() + 4
    }

    /// Line status port: read only.
    pub fn port_line_sts(&self) -> (r: u16)
        requires
            self.wf(),
        ensures
            r == self@ + 5,
    {
        self.port_base() + 5
    }

    /// The initialisation sequence: interrupts off, divisor latch set for
    /// 38400 bits per second, 8-bit words, FIFO enabled and cleared,
    /// data-terminal-ready and request-to-send raised, then the receive
    /// interrupt enabled.
    pub fn init(&self) -> (r: Vec<PortWrite>)
        requires
            self.wf(),
        ensures
            r@.len() == 8,
            r@[0] == (PortWrite { port: (self@ + 1) as u16, data: 0x00 }),
            r@[1] == (PortWrite { port: (self@ + 3) as u16, data: 0x80 }),
            r@[2] == (PortWrite { port: self@, data: 0x03 }),
            r@[3] == (PortWrite { port: (self@ + 1) as u16, data: 0x00 }),
            r@[4] == (PortWrite { port: (self@ + 3) as u16, data: 0x03 }),
            r@[5] == (PortWrite { port: (self@ + 2) as u16, data: 0xc7 }),
            r@[6] == (PortWrite { port: (self@ + 4) as u16, data: 0x0b }),
            r@[7] == (PortWrite { port: (self@ + 1) as u16, data: 0x01 }),
    {
        let mut r: Vec<PortWrite> = Vec::new();
        r.push(PortWrite::new(self.port_int_en(), 0x00));
        r.push(PortWrite::new(self.port_line_ctrl(), 0x80));
        r.push(PortWrite::new(self.port_data(), 0x03));
        r.push(PortWrite::new(self.port_int_en(), 0x00));
        r.push(PortWrite::new(self.port_line_ctrl(), 0x03));
        r.push(PortWrite::new(self.port_fifo_ctrl(), 0xc7));
        r.push(PortWrite::new(self.port_modem_ctrl(), 0x0b));
        r.push(PortWrite::new(self.port_int_en(), 0x01));
        r
    }

    /// The data-port writes that send one byte.  A backspace or delete
    /// byte is rendered as backspace, space, backspace; every other byte
    /// goes out as itself.  The caller waits for the transmit queue to
    /// drain before each write.
    pub fn send(&self, data: u8) -> (r: Vec<PortWrite>)
        requires
            self.wf(),
        ensures
            data == 8 || data == 0x7f ==> r@.len() == 3 && r@[0] == (PortWrite {
                port: self@,
                data: 8,
            }) && r@[1] == (PortWrite { port: self@, data: 32 }) && r@[2] == (PortWrite {
                port: self@,
                data: 8,
            }),
            data != 8 && data != 0x7f ==> r@.len() == 1 && r@[0] == (PortWrite {
                port: self@,
                data,
            }),
    {
        let mut r: Vec<PortWrite> = Vec::new();
        match data {
            8 | 0x7f => {
                r.push(PortWrite::new(self.port_data(), 8));
                r.push(PortWrite::new(self.port_data(), 32u8));
                r.push(PortWrite::new(self.port_data(), 8));
            },
            _ => {
                r.push(PortWrite::new(self.port_data(), data));
            },
        }
        r
    }

    /// The single data-port write that sends one raw byte, for binary
    /// data.  The caller waits for the transmit queue to drain first.
    pub fn send_raw(&self, data: u8) -> (r: Vec<PortWrite>)
        requires
            self.wf(),
        ensures
            r@.len() == 1,
            r@[0] == (PortWrite { port: self@, data }),
    {
        let mut r: Vec<PortWrite> = Vec::new();
        r.push(PortWrite::new(self.port_data(), data));
        r
    }
}

/// True when a line-status byte says a received byte is waiting; the
/// caller polls until this holds before reading the data port.
pub fn line_sts_input_full(sts: u8) -> (r: bool)
    ensures
        r == (sts & 1 == 1),
{
    sts & 1 == 1
}

/// True when a line-status byte says the transmit queue is empty; the
/// caller polls until this holds before writing the data port.
pub fn line_sts_output_empty(sts: u8) -> (r: bool)
    ensures
        r == (sts & 0x20 == 0x20),
{
    sts & 0x20 == 0x20
}

} // verus!
