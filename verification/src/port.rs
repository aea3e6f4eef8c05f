//! Planned writes to I/O ports.
//!
//! The library never touches a port itself.  A function whose job ends in
//! port output returns the exact sequence of writes to perform; the caller
//! carries them out in order.

use vstd::prelude::*;

verus! {

/// One byte written to one I/O port.
#[derive(Debug, Clone, Copy, PartialEq, Eq, Structural)]
pub struct PortWrite {
    /// The port written to.
    pub port: u16,
    /// The byte written.
    pub data: u8,
}

impl PortWrite {
    /// A write of `data` to `port`.
    pub fn new(port: u16, data: u8) -> (r: PortWrite)
        ensures
            r == (PortWrite { port, data }),
    {
        PortWrite { port, data }
    }
}

} // verus!
