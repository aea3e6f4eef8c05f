//! Trap/interrupt dispatch core of a minimal protected-mode x86 kernel.
//!
//! The library covers the descriptor-table entry encoding, the 256-slot
//! descriptor table with its publish pointer, the exception taxonomy, the
//! interrupt-controller and timer programming sequences, the physical-page
//! bitmap allocator, the screen and serial output state machines, and the
//! lazy-singleton initialisation protocol.  Everything that touches the
//! machine itself (port writes, the privileged table-load instruction,
//! reads of live registers) is returned to the caller as plain values:
//! the caller performs them and feeds results back in.

pub mod bits;
pub mod interrupt;
pub mod intr;
pub mod io;
pub mod keyboard;
pub mod loader;
pub mod mm;
pub mod os;
pub mod pic;
pub mod port;
pub mod reg;
pub mod singleton;
pub mod thread;
pub mod vector;
