//! A flat descriptor table of one entry shape: every vector carries a
//! bare handler address, installed under the kernel code segment.

use vstd::prelude::*;

verus! {

use crate::bits::BitAccess;
use crate::intr::{lemma_addr_split, lemma_option_word_bridges, with_dpl, with_present, with_trap};
use crate::loader::SEGMENT_KERNEL_CODE;
use crate::port::PortWrite;
use crate::reg::{DescriptorTablePointer, PrivilegeLevel, SegmentSelector};

pub use crate::intr::ExceptionStackFrame;

/// The defined exception vectors, by name.
#[derive(Debug, Copy, Clone, PartialEq, Eq, Structural, Hash)]
pub enum Interrupts {
    DivideError,
    DebugException,
    Interrupt,
    BreakpointException,
    OverflowException,
    BoundRangeExceededException,
    InvalidOpcodeException,
    DeviceNotAvailableException,
    DoubleFaultException,
    CoprocessorSegmentOverrun,
    InvalidTSSException,
    SegmentNotPresent,
    StackFaultException,
    GeneralProtectionException,
    PageFaultException,
    FPUFloatingPointException,
    AlignmentCheckException,
    MachineCheckException,
    SIMDFloatingPointException,
}

impl Interrupts {
    /// The vector number of the exception.
    pub open spec fn as_u8(self) -> u8 {
        match self {
            Interrupts::DivideError => 0,
            Interrupts::DebugException => 1,
            Interrupts::Interrupt => 2,
            Interrupts::BreakpointException => 3,
            Interrupts::OverflowException => 4,
            Interrupts::BoundRangeExceededException => 5,
            Interrupts::InvalidOpcodeException => 6,
            Interrupts::DeviceNotAvailableException => 7,
            Interrupts::DoubleFaultException => 8,
            Interrupts::CoprocessorSegmentOverrun => 9,
            Interrupts::InvalidTSSException => 10,
            Interrupts::SegmentNotPresent => 11,
            Interrupts::StackFaultException => 12,
            Interrupts::GeneralProtectionException => 13,
            Interrupts::PageFaultException => 14,
            Interrupts::FPUFloatingPointException => 16,
            Interrupts::AlignmentCheckException => 17,
            Interrupts::MachineCheckException => 18,
            Interrupts::SIMDFloatingPointException => 19,
        }
    }

    /// The vector number of the exception.
    pub fn vector(self) -> (r: u8)
        ensures
            r == self.as_u8(),
    {
        match self {
            Interrupts::DivideError => 0,
            Interrupts::DebugException => 1,
            Interrupts::Interrupt => 2,
            Interrupts::BreakpointException => 3,
            Interrupts::OverflowException => 4,
            Interrupts::BoundRangeExceededException => 5,
            Interrupts::InvalidOpcodeException => 6,
            Interrupts::DeviceNotAvailableException => 7,
            Interrupts::DoubleFaultException => 8,
            Interrupts::CoprocessorSegmentOverrun => 9,
            Interrupts::InvalidTSSException => 10,
            Interrupts::SegmentNotPresent => 11,
            Interrupts::StackFaultException => 12,
            Interrupts::GeneralProtectionException => 13,
            Interrupts::PageFaultException => 14,
            Interrupts::FPUFloatingPointException => 16,
            Interrupts::AlignmentCheckException => 17,
            Interrupts::MachineCheckException => 18,
            Interrupts::SIMDFloatingPointException => 19,
        }
    }
}

/// The word `EntryOptions::new` composes: present, trap flag clear,
/// ring 0, with the fixed bits 9 to 11 set.
pub open spec fn entry_options_new_word() -> u16 {
    with_trap(with_present(0x0e00u16, true), false)
}

/// The ghost shape of a flat table entry: its four packed words.
pub struct EntryView {
    /// Low 16 bits of the handler address.
    pub pointer_low: u16,
    /// Code segment selector the handler runs under.
    pub gdt_selector: SegmentSelector,
    /// The option word.
    pub options: u16,
    /// High 16 bits of the handler address.
    pub pointer_middle: u16,
}

impl EntryView {
    /// The full 32-bit handler address split over the two pointer words.
    pub open spec fn addr(self) -> u32 {
        ((self.pointer_middle as u32) << 16) | (self.pointer_low as u32)
    }
}

/// The bit-packed option word of a flat table entry.
#[derive(Debug, Clone, Copy)]
pub struct EntryOptions(u16);

impl View for EntryOptions {
    type V = u16;

    closed spec fn view(&self) -> u16 {
        self.0
    }
}

impl EntryOptions {
    /// The word with only the architecturally fixed bits 9 to 11 set.
    pub fn minimal() -> (r: EntryOptions)
        ensures
            r@ == 0x0e00,
    {
        let mut options: u16 = 0;
        proof {
            assert(0b111u16 as u64 <= ((1u64 << 3u64) - 1) as u64) by (bit_vector);
        }
        options.set_bits(9, 12, 0b111);
        proof {
            assert((0u16 as u64 & !((((1u64 << 3u64) - 1) as u64) << 9u64)) | ((0b111u16 as u64)
                << 9u64) == 0x0e00) by (bit_vector);
        }
        EntryOptions(options)
    }

    /// The word a fresh installed entry carries: present, with
    /// interrupts disabled across the transfer.
    pub fn new() -> (r: EntryOptions)
        ensures
            r@ == entry_options_new_word(),
            r@ == 0x8e00,
    {
        let mut options = Self::minimal();
        options.set_present(true);
        options.disable_interrupts(true);
        proof {
            assert(((0x0e00u16 | 0x8000) & !0x100u16) == 0x8e00) by (bit_vector);
        }
        options
    }

    /// The raw 16-bit value of the option word.
    pub fn raw(&self) -> (r: u16)
        ensures
            r == self@,
    {
        self.0
    }

    /// Replaces the present bit, leaving every other bit unchanged.
    pub fn set_present(&mut self, present: bool)
        ensures
            final(self)@ == with_present(old(self)@, present),
    {
        self.0.set_bit(15, present);
        proof {
            lemma_option_word_bridges(old(self).0, 0);
        }
    }

    /// Sets bit 8 to the opposite of `disable`: a disabled entry keeps
    /// interrupts off across the transfer, an enabled one keeps them on.
    pub fn disable_interrupts(&mut self, disable: bool)
        ensures
            final(self)@ == with_trap(old(self)@, !disable),
    {
        self.0.set_bit(8, !disable);
        proof {
            lemma_option_word_bridges(old(self).0, 0);
        }
    }

    /// Replaces the descriptor privilege level in bits 13 and 14.
    pub fn set_privilege_level(&mut self, dpl: u16)
        requires
            dpl < 4,
        ensures
            final(self)@ == with_dpl(old(self)@, dpl),
    {
        proof {
            lemma_option_word_bridges(self.0, dpl);
        }
        self.0.set_bits(13, 15, dpl);
        proof {
            lemma_option_word_bridges(old(self).0, dpl);
        }
    }

    /// Replaces the interrupt-stack-table index in bits 0 to 2, for
    /// vectors that must run on a known-good stack.
    pub fn set_stack_index(&mut self, index: u16)
        requires
            index < 8,
        ensures
            final(self)@ == ((old(self)@ & !0x7u16) | index),
    {
        proof {
            lemma_option_word_bridges(self.0, index);
        }
        self.0.set_bits(0, 3, index);
        proof {
            lemma_option_word_bridges(old(self).0, index);
        }
    }
}

/// The entry `Idt::set_handler` writes: the handler address split over
/// the two pointer words, under the kernel code segment, present and
/// with interrupts disabled across the transfer.
pub open spec fn installed_entry(handler: u32) -> EntryView {
    EntryView {
        pointer_low: (handler & 0xffff) as u16,
        gdt_selector: SegmentSelector(SEGMENT_KERNEL_CODE),
        options: entry_options_new_word(),
        pointer_middle: (handler >> 16) as u16,
    }
}

/// One flat table entry: a handler address split over two words, the
/// code segment selector, and the option word.
#[derive(Clone, Copy)]
pub struct Entry {
    pointer_low: u16,
    gdt_selector: SegmentSelector,
    options: EntryOptions,
    pointer_middle: u16,
}

impl View for Entry {
    type V = EntryView;

    closed spec fn view(&self) -> EntryView {
        EntryView {
            pointer_low: self.pointer_low,
            gdt_selector: self.gdt_selector,
            options: self.options@,
            pointer_middle: self.pointer_middle,
        }
    }
}

impl Entry {
    /// An entry transferring to `handler` under `gdt_selector`, present
    /// and with interrupts disabled across the transfer.
    pub fn new(gdt_selector: SegmentSelector, handler: u32) -> (r: Entry)
        ensures
            r@ == (EntryView {
                pointer_low: (handler & 0xffff) as u16,
                gdt_selector,
                options: entry_options_new_word(),
                pointer_middle: (handler >> 16) as u16,
            }),
            r@.addr() == handler,
    {
        let r = Entry {
            gdt_selector,
            pointer_low: (handler & 0xffff) as u16,
            pointer_middle: (handler >> 16) as u16,
            options: EntryOptions::new(),
        };
        proof {
            lemma_addr_split(handler);
        }
        r
    }

    /// The absent entry: null address, null selector, minimal options.
    pub fn missing() -> (r: Entry)
        ensures
            r@ == (EntryView {
                pointer_low: 0,
                gdt_selector: SegmentSelector(0),
                options: 0x0e00,
                pointer_middle: 0,
            }),
    {
        let r = Entry {
            gdt_selector: SegmentSelector::new(0, PrivilegeLevel::Ring0),
            pointer_low: 0,
            pointer_middle: 0,
            options: EntryOptions::minimal(),
        };
        proof {
            assert((0u16 << 3) | 0u16 == 0) by (bit_vector);
        }
        r
    }

    /// The handler address held in the entry's two pointer words.
    pub fn pointer(&self) -> (r: u32)
        ensures
            r == self@.addr(),
    {
        ((self.pointer_middle as u32) << 16) | (self.pointer_low as u32)
    }

    /// The entry's option word.
    pub fn options(&self) -> (r: EntryOptions)
        ensures
            r@ == self@.options,
    {
        self.options
    }

    /// Overwrites the entry's option word.
    pub fn set_options(&mut self, options: EntryOptions)
        ensures
            final(self)@ == (EntryView { options: options@, ..old(self)@ }),
    {
        self.options = options;
    }
}

/// A flat table of 256 entries of one shape.
pub struct Idt(pub Vec<Entry>);

impl Idt {
    /// The table holds its full 256 entries.
    pub open spec fn wf(self) -> bool {
        self.0@.len() == 256
    }

    /// A fresh table with every entry absent.
    pub fn new() -> (r: Idt)
        ensures
            r.wf(),
            forall|v: int|
                0 <= v < 256 ==> (#[trigger] r.0@[v])@ == (EntryView {
                    pointer_low: 0,
                    gdt_selector: SegmentSelector(0),
                    options: 0x0e00,
                    pointer_middle: 0,
                }),
    {
        let mut entries: Vec<Entry> = Vec::new();
        let mut i: usize = 0;
        while i < 256
            invariant
                i <= 256,
                entries@.len() == i,
                forall|v: int|
                    0 <= v < i ==> (#[trigger] entries@[v])@ == (EntryView {
                        pointer_low: 0,
                        gdt_selector: SegmentSelector(0),
                        options: 0x0e00,
                        pointer_middle: 0,
                    }),
            decreases 256 - i,
        {
            entries.push(Entry::missing());
            i = i + 1;
        }
        Idt(entries)
    }

    /// Installs `handler` for the given vector, under the kernel code
    /// segment, present and with interrupts disabled across the
    /// transfer; every other entry stays as it was.
    pub fn set_handler(&mut self, entry: u8, handler: u32)
        requires
            old(self).wf(),
        ensures
            final(self).wf(),
            final(self).0@[entry as int]@ == installed_entry(handler),
            final(self).0@[entry as int]@.addr() == handler,
            forall|v: int|
                0 <= v < 256 && v != entry ==> #[trigger] final(self).0@[v] == old(self).0@[v],
    {
        self.0[entry as usize] = Entry::new(SegmentSelector(SEGMENT_KERNEL_CODE), handler);
    }

    /// Overwrites the option word of the given vector's entry; the
    /// address words and every other entry stay as they were.
    pub fn set_options(&mut self, entry: u8, options: EntryOptions)
        requires
            old(self).wf(),
        ensures
            final(self).wf(),
            final(self).0@[entry as int]@ == (EntryView {
                options: options@,
                ..old(self).0@[entry as int]@
            }),
            forall|v: int|
                0 <= v < 256 && v != entry ==> #[trigger] final(self).0@[v] == old(self).0@[v],
    {
        let mut e = self.0[entry as usize];
        e.set_options(options);
        self.0[entry as usize] = e;
    }

    /// The entry for one vector.
    pub fn entry(&self, vector: u8) -> (r: Entry)
        requires
            self.wf(),
        ensures
            r == self.0@[vector as int],
    {
        self.0[vector as usize]
    }

    /// The operand for the privileged instruction that publishes this
    /// table: its 2048-byte size minus one, and the address its packed
    /// form lives at.
    pub fn load(&self, base: u32) -> (r: DescriptorTablePointer)
        ensures
            r == (DescriptorTablePointer { limit: 2047, base }),
    {
        DescriptorTablePointer { limit: 2047, base }
    }
}

} // verus!
