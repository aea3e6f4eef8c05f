//! The kernel object: the table of installed handlers and the
//! initialisation steps the boot sequence runs.

use vstd::prelude::*;

verus! {

use crate::interrupt::{installed_entry, Idt, Interrupts};
use crate::pic;
use crate::port::PortWrite;

/// Ticks per second the periodic timer is programmed for.
pub const TIMER_FREQ: u32 = 200;

/// The running kernel: the descriptor table the boot sequence fills in.
pub struct RondOs {
    /// The flat descriptor table.
    pub idt: Idt,
}

impl RondOs {
    /// A kernel with a fresh table, every vector absent.
    pub fn new() -> (r: RondOs)
        ensures
            r.idt.wf(),
            forall|v: int| 0 <= v < 256 ==> !crate::intr::present_bit((#[trigger] r.idt.0@[v])@.options),
    {
        let r = RondOs { idt: Idt::new() };
        proof {
            assert(!crate::intr::present_bit(0x0e00)) by (bit_vector);
        }
        r
    }

    /// Wires the exception handlers in: programs both interrupt
    /// controllers and installs the breakpoint, page-fault and
    /// double-fault handlers.  The returned controller writes are
    /// performed by the caller, which then publishes the table.
    pub fn intr_init(
        &mut self,
        breakpoint_handler: u32,
        page_fault_handler: u32,
        double_fault_handler: u32,
    ) -> (writes: Vec<PortWrite>)
        requires
            old(self).idt.wf(),
        ensures
            final(self).idt.wf(),
            writes@ == pic::spec_pic_init_writes(),
            final(self).idt.0@[3]@ == installed_entry(breakpoint_handler),
            final(self).idt.0@[14]@ == installed_entry(page_fault_handler),
            final(self).idt.0@[8]@ == installed_entry(double_fault_handler),
            forall|v: int|
                0 <= v < 256 && v != 3 && v != 14 && v != 8 ==> #[trigger] final(self).idt.0@[v]
                    == old(self).idt.0@[v],
    {
        let writes = pic::pic_init();
        self.idt.set_handler(Interrupts::BreakpointException.vector(), breakpoint_handler);
        self.idt.set_handler(Interrupts::PageFaultException.vector(), page_fault_handler);
        self.idt.set_handler(Interrupts::DoubleFaultException.vector(), double_fault_handler);
        writes
    }

    /// Programs timer channel 0 for the periodic tick and installs the
    /// timer handler on vector 32.  The returned timer writes are
    /// performed by the caller.
    pub fn timer_init(&mut self, timer_handler: u32) -> (writes: Vec<PortWrite>)
        requires
            old(self).idt.wf(),
        ensures
            final(self).idt.wf(),
            writes@ == pic::spec_pit_writes(0, 2, TIMER_FREQ),
            final(self).idt.0@[0x20]@ == installed_entry(timer_handler),
            forall|v: int|
                0 <= v < 256 && v != 0x20 ==> #[trigger] final(self).idt.0@[v] == old(
                    self,
                ).idt.0@[v],
    {
        let writes = pic::pit_configure_channel(0, 2, TIMER_FREQ);
        self.idt.set_handler(0x20, timer_handler);
        writes
    }

    /// Installs the keyboard handler on vector 33.
    pub fn keyboard_init(&mut self, keyboard_handler: u32)
        requires
            old(self).idt.wf(),
        ensures
            final(self).idt.wf(),
            final(self).idt.0@[0x21]@ == installed_entry(keyboard_handler),
            forall|v: int|
                0 <= v < 256 && v != 0x21 ==> #[trigger] final(self).idt.0@[v] == old(
                    self,
                ).idt.0@[v],
    {
        self.idt.set_handler(0x21, keyboard_handler);
    }
}

/// The process-wide kernel slot: empty until the boot sequence fills it.
pub struct Os(Option<RondOs>);

impl Os {
    /// What the slot holds.
    pub closed spec fn spec_inner(self) -> Option<RondOs> {
        self.0
    }

    /// The empty slot.
    pub fn new() -> (r: Os)
        ensures
            r.spec_inner() is None,
    {
        Os(None)
    }

    /// Fills the slot with a fresh kernel.
    pub fn init(&mut self)
        ensures
            final(self).spec_inner() is Some,
            final(self).spec_inner().unwrap().idt.wf(),
    {
        *self = Os(Some(RondOs::new()));
    }

    /// The kernel; the slot must have been filled.
    pub fn get(&self) -> (r: &RondOs)
        requires
            self.spec_inner() is Some,
        ensures
            Some(*r) == self.spec_inner(),
    {
        match &self.0 {
            Some(os) => os,
            None => vstd::pervasive::unreached(),
        }
    }

    /// The kernel, for the boot steps that install handlers; the slot
    /// must have been filled.
    pub fn get_mut(&mut self) -> (r: &mut RondOs)
        requires
            old(self).spec_inner() is Some,
        ensures
            *r == old(self).spec_inner().unwrap(),
            final(self).spec_inner() == Some(*final(r)),
    {
        match &mut self.0 {
            Some(os) => os,
            None => vstd::pervasive::unreached(),
        }
    }
}

} // verus!
