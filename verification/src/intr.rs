//! Descriptor entries for the interrupt table: the bit-packed option word,
//! handler kinds, and the per-vector entry encoding.

use vstd::prelude::*;

verus! {

use crate::bits::BitAccess;
use crate::port::PortWrite;
use crate::reg::{DescriptorTablePointer, PrivilegeLevel, SegmentSelector};

/// True when bit 8 of the option word is set: the entry has trap
/// semantics, and interrupts stay enabled across the transfer.
pub open spec fn trap_bit(w: u16) -> bool {
    w & 0x100 == 0x100
}

/// The descriptor privilege level held in bits 13 and 14 of the option word.
pub open spec fn dpl_bits(w: u16) -> u16 {
    (w >> 13) & 3
}

/// True when bit 15 of the option word is set: the entry is present.
pub open spec fn present_bit(w: u16) -> bool {
    w & 0x8000 == 0x8000
}

/// True when the architecturally fixed bits 9 to 11 of the option word are
/// all set, as they must be in every valid option word.
pub open spec fn must_be_one_bits(w: u16) -> bool {
    w & 0x0e00 == 0x0e00
}

/// The option word with the trap flag replaced by `t`.
pub open spec fn with_trap(w: u16, t: bool) -> u16 {
    if t {
        w | 0x100
    } else {
        w & !0x100u16
    }
}

/// The option word with the privilege level replaced by `d`.
pub open spec fn with_dpl(w: u16, d: u16) -> u16
    recommends
        d < 4,
{
    (w & !0x6000u16) | (d << 13)
}

/// The option word with the present bit replaced by `p`.
pub open spec fn with_present(w: u16, p: bool) -> u16 {
    if p {
        w | 0x8000
    } else {
        w & !0x8000u16
    }
}

/// The option word built from the default word by setting the trap flag,
/// privilege level and present bit; bits 9 to 11 are set, all others clear.
pub open spec fn option_word(t: bool, d: u16, p: bool) -> u16
    recommends
        d < 4,
{
    with_present(with_dpl(with_trap(0x0e00u16, t), d), p)
}

/// Reading the three fields out of a freshly composed option word gives
/// back exactly what was put in, and the fixed bits are set.
pub proof fn lemma_option_word_reads(t: bool, d: u16, p: bool)
    by (bit_vector)
    requires
        d < 4,
    ensures
        trap_bit(option_word(t, d, p)) == t,
        dpl_bits(option_word(t, d, p)) == d,
        present_bit(option_word(t, d, p)) == p,
        must_be_one_bits(option_word(t, d, p)),
{
}

/// Setting the trap flag, the privilege level and the present bit on a
/// valid option word, in any of the six orders, yields one and the same
/// word; reading the three fields back gives the values set, and bits
/// 9 to 11 stay set.
pub proof fn lemma_option_round_trip(w: u16, t: bool, d: u16, p: bool)
    by (bit_vector)
    requires
        d < 4,
        must_be_one_bits(w),
    ensures
        with_present(with_dpl(with_trap(w, t), d), p) == with_dpl(with_present(with_trap(w, t), p), d),
        with_present(with_dpl(with_trap(w, t), d), p) == with_present(with_trap(with_dpl(w, d), t), p),
        with_present(with_dpl(with_trap(w, t), d), p) == with_trap(with_present(with_dpl(w, d), p), t),
        with_present(with_dpl(with_trap(w, t), d), p) == with_dpl(with_trap(with_present(w, p), t), d),
        with_present(with_dpl(with_trap(w, t), d), p) == with_trap(with_dpl(with_present(w, p), d), t),
        trap_bit(with_present(with_dpl(with_trap(w, t), d), p)) == t,
        dpl_bits(with_present(with_dpl(with_trap(w, t), d), p)) == d,
        present_bit(with_present(with_dpl(with_trap(w, t), d), p)) == p,
        must_be_one_bits(with_present(with_dpl(with_trap(w, t), d), p)),
{
}

/// The facts that tie the generic bit operations on an option word `w`
/// to the fixed masks of its fields, for any field value `v`.
pub(crate) proof fn lemma_option_word_bridges(w: u16, v: u16)
    by (bit_vector)
    ensures
        ((w as u64 >> 8u64) & 1 == 1) == (w & 0x100 == 0x100),
        ((w as u64 >> 15u64) & 1 == 1) == (w & 0x8000 == 0x8000),
        (w as u64 >> 13u64) & ((1u64 << 2u64) - 1) as u64 == ((w >> 13) & 3) as u64,
        (w as u64 | (1u64 << 8u64)) == (w | 0x100) as u64,
        (w as u64 & !(1u64 << 8u64)) == (w & !0x100u16) as u64,
        (w as u64 | (1u64 << 15u64)) == (w | 0x8000) as u64,
        (w as u64 & !(1u64 << 15u64)) == (w & !0x8000u16) as u64,
        v < 4 ==> v as u64 <= ((1u64 << 2u64) - 1) as u64,
        v < 4 ==> (w as u64 & !((((1u64 << 2u64) - 1) as u64) << 13u64)) | ((v as u64) << 13u64)
            == ((w & !0x6000u16) | (v << 13)) as u64,
        v < 8 ==> v as u64 <= ((1u64 << 3u64) - 1) as u64,
        v < 8 ==> (w as u64 & !((((1u64 << 3u64) - 1) as u64) << 0u64)) | ((v as u64) << 0u64) == (
        (w & !0x7u16) | v) as u64,
{
}

/// The two halves of a 32-bit address reassemble to the address.
pub(crate) proof fn lemma_addr_split(pointer: u32)
    by (bit_vector)
    ensures
        (((pointer >> 16) as u16 as u32) << 16) | ((pointer & 0xffff) as u16 as u32) == pointer,
{
}

/// The bit-packed option word of a descriptor entry.
#[derive(Debug, Clone, Copy)]
pub struct InterruptOption(u16);

impl View for InterruptOption {
    type V = u16;

    closed spec fn view(&self) -> u16 {
        self.0
    }
}

impl InterruptOption {
    /// An option word with the given trap flag, privilege level and
    /// present bit; the fixed bits 9 to 11 are set, everything else clear.
    pub fn new(is_trap: bool, privilege_level: PrivilegeLevel, is_present: bool) -> (r:
        InterruptOption)
        ensures
            r@ == option_word(is_trap, privilege_level.as_u16(), is_present),
            trap_bit(r@) == is_trap,
            dpl_bits(r@) == privilege_level.as_u16(),
            present_bit(r@) == is_present,
            must_be_one_bits(r@),
    {
        let mut opt = InterruptOption(0b0000111000000000);
        opt.set_trap(is_trap);
        opt.set_privilege_level(privilege_level.to_u16());
        opt.set_present(is_present);
        proof {
            lemma_option_word_reads(is_trap, privilege_level.as_u16(), is_present);
        }
        opt
    }

    /// The raw 16-bit value of the option word.
    pub fn raw(&self) -> (r: u16)
        ensures
            r == self@,
    {
        self.0
    }

    /// True when the entry has trap semantics.
    pub fn is_trap(&self) -> (r: bool)
        ensures
            r == trap_bit(self@),
    {
        let r = self.0.get_bit(8);
        proof {
            lemma_option_word_bridges(self.0, 0);
        }
        r
    }

    /// Replaces the trap flag, leaving every other bit unchanged.
    pub fn set_trap(&mut self, val: bool)
        ensures
            final(self)@ == with_trap(old(self)@, val),
    {
        self.0.set_bit(8, val);
        proof {
            lemma_option_word_bridges(old(self).0, 0);
        }
    }

    /// The descriptor privilege level, 0 to 3.
    pub fn privilege_level(&self) -> (r: u16)
        ensures
            r == dpl_bits(self@),
    {
        let r = self.0.get_bits(13, 15);
        proof {
            lemma_option_word_bridges(self.0, 0);
        }
        r
    }

    /// Replaces the privilege level, leaving every other bit unchanged.
    pub fn set_privilege_level(&mut self, val: u16)
        requires
            val < 4,
        ensures
            final(self)@ == with_dpl(old(self)@, val),
    {
        proof {
            lemma_option_word_bridges(self.0, val);
        }
        self.0.set_bits(13, 15, val);
        proof {
            lemma_option_word_bridges(old(self).0, val);
        }
    }

    /// True when the entry is marked present.
    pub fn is_present(&self) -> (r: bool)
        ensures
            r == present_bit(self@),
    {
        let r = self.0.get_bit(15);
        proof {
            lemma_option_word_bridges(self.0, 0);
        }
        r
    }

    /// Replaces the present bit, leaving every other bit unchanged.
    pub fn set_present(&mut self, val: bool)
        ensures
            final(self)@ == with_present(old(self)@, val),
    {
        self.0.set_bit(15, val);
        proof {
            lemma_option_word_bridges(old(self).0, 0);
        }
    }
}

impl Default for InterruptOption {
    /// The absent option word: trap flag clear, ring 0, not present, with
    /// only the fixed bits 9 to 11 set.
    fn default() -> (r: Self)
        ensures
            r@ == 0x0e00,
    {
        let r = InterruptOption::new(false, PrivilegeLevel::Ring0, false);
        proof {
            assert(option_word(false, 0, false) == 0x0e00) by (bit_vector);
        }
        r
    }
}

/// The calling convention a vector's handler must satisfy.
#[derive(Debug, Clone, Copy, PartialEq, Eq, Structural, Hash)]
pub enum HandlerKind {
    /// Takes the saved frame and returns.
    Plain,
    /// Takes the saved frame and a hardware error code and returns.
    WithErrorCode,
    /// Takes the saved frame and never returns.
    Diverging,
    /// Takes the saved frame and an error code and never returns.
    DivergingWithErrorCode,
}

/// A handler routine as the table sees it: its address, tagged with the
/// calling convention it was declared with.
#[derive(Debug, Clone, Copy, PartialEq, Eq, Structural)]
pub struct HandlerRef {
    /// Address of the routine's first instruction.
    pub addr: u32,
    /// The calling convention the routine was declared with.
    pub kind: HandlerKind,
}

/// Why an operation on the descriptor table was refused.
#[derive(Debug, Clone, Copy, PartialEq, Eq, Structural)]
pub enum IdtError {
    /// The vector is architecturally reserved and must stay absent.
    ReservedVector,
    /// The vector's handler takes an error code; it has a named field.
    ErrorCodeVector,
    /// The vector's handler must never return; it has a named field.
    DivergingVector,
    /// The vector number is beyond the table.
    NoSuchVector,
    /// The handler's declared kind does not match the vector's kind.
    KindMismatch,
}

/// The ghost shape of a descriptor entry: its four packed words and the
/// handler kind the entry was created for.
pub struct InterruptEntryView {
    /// Low 16 bits of the handler address.
    pub pointer_low: u16,
    /// Code segment selector the handler runs under.
    pub gdt_selector: SegmentSelector,
    /// The option word.
    pub options: u16,
    /// High 16 bits of the handler address.
    pub pointer_middle: u16,
    /// The handler kind the entry accepts.
    pub kind: HandlerKind,
}

impl InterruptEntryView {
    /// The full 32-bit handler address split over the two pointer words.
    pub open spec fn addr(self) -> u32 {
        ((self.pointer_middle as u32) << 16) | (self.pointer_low as u32)
    }

    /// The entry an absent slot of kind `kind` holds: null address, null
    /// selector, default option word.
    pub open spec fn absent(kind: HandlerKind) -> InterruptEntryView {
        InterruptEntryView {
            pointer_low: 0,
            gdt_selector: SegmentSelector(0),
            options: 0x0e00,
            pointer_middle: 0,
            kind,
        }
    }
}

/// One descriptor of the interrupt table, tagged with the handler kind
/// its vector requires.
#[derive(Debug, Clone, Copy)]
pub struct InterruptEntry {
    pointer_low: u16,
    gdt_selector: SegmentSelector,
    options: InterruptOption,
    pointer_middle: u16,
    kind: HandlerKind,
}

impl View for InterruptEntry {
    type V = InterruptEntryView;

    closed spec fn view(&self) -> InterruptEntryView {
        InterruptEntryView {
            pointer_low: self.pointer_low,
            gdt_selector: self.gdt_selector,
            options: self.options@,
            pointer_middle: self.pointer_middle,
            kind: self.kind,
        }
    }
}

impl InterruptEntry {
    /// An absent entry for a vector requiring handlers of kind `kind`.
    pub fn new(kind: HandlerKind) -> (r: InterruptEntry)
        ensures
            r@ == InterruptEntryView::absent(kind),
    {
        InterruptEntry {
            pointer_low: 0,
            gdt_selector: SegmentSelector(0),
            options: InterruptOption::default(),
            pointer_middle: 0,
            kind,
        }
    }

    /// The handler kind this entry accepts.
    pub fn kind(&self) -> (r: HandlerKind)
        ensures
            r == self@.kind,
    {
        self.kind
    }

    /// The handler address held in the entry's two pointer words.
    pub fn pointer(&self) -> (r: u32)
        ensures
            r == self@.addr(),
    {
        ((self.pointer_middle as u32) << 16) | (self.pointer_low as u32)
    }

    /// The entry's option word.
    pub fn options(&self) -> (r: InterruptOption)
        ensures
            r@ == self@.options,
    {
        self.options
    }

    /// The entry's code segment selector.
    pub fn gdt_selector(&self) -> (r: SegmentSelector)
        ensures
            r == self@.gdt_selector,
    {
        self.gdt_selector
    }

    /// The packed 8-byte little-endian form of the entry: low address
    /// word, selector, option word, middle address word.
    pub fn encode(&self) -> (r: Vec<u8>)
        ensures
            r@ == entry_bytes(self@),
    {
        let mut out: Vec<u8> = Vec::new();
        out.push((self.pointer_low & 0xff) as u8);
        out.push((self.pointer_low >> 8) as u8);
        out.push((self.gdt_selector.0 & 0xff) as u8);
        out.push((self.gdt_selector.0 >> 8) as u8);
        let opt = self.options.raw();
        out.push((opt & 0xff) as u8);
        out.push((opt >> 8) as u8);
        out.push((self.pointer_middle & 0xff) as u8);
        out.push((self.pointer_middle >> 8) as u8);
        proof {
            assert(out@ =~= entry_bytes(self@));
        }
        out
    }

    /// Overwrites the option word verbatim; the other words stay.
    pub fn set_option(&mut self, opt: InterruptOption)
        ensures
            final(self)@ == (InterruptEntryView { options: opt@, ..old(self)@ }),
    {
        self.options = opt;
    }

    /// Installs a handler address: splits it over the low and middle
    /// words, records the given code segment, and marks the entry present
    /// with the trap flag clear, at ring 0.  Reading the two words
    /// back reconstructs the address exactly.
    pub fn set_handle_addr(&mut self, pointer: u32, cs: SegmentSelector)
        ensures
            final(self)@ == (InterruptEntryView {
                pointer_low: (pointer & 0xffff) as u16,
                gdt_selector: cs,
                options: option_word(false, 0, true),
                pointer_middle: (pointer >> 16) as u16,
                kind: old(self)@.kind,
            }),
            final(self)@.addr() == pointer,
            present_bit(final(self)@.options),
            !trap_bit(final(self)@.options),
            dpl_bits(final(self)@.options) == 0,
    {
        self.pointer_low = (pointer & 0xffff) as u16;
        self.pointer_middle = (pointer >> 16) as u16;
        self.gdt_selector = cs;
        self.set_option(InterruptOption::new(false, PrivilegeLevel::Ring0, true));
        proof {
            lemma_addr_split(pointer);
            lemma_option_word_reads(false, 0, true);
        }
    }

    /// Installs a handler routine, provided its declared kind matches the
    /// kind this entry was created for; a mismatched handler is refused
    /// and the entry is left untouched, in particular not present.
    pub fn set_handle_fn(&mut self, handler: HandlerRef, cs: SegmentSelector) -> (r: Result<
        (),
        IdtError,
    >)
        ensures
            handler.kind == old(self)@.kind ==> r is Ok && final(self)@ == (InterruptEntryView {
                pointer_low: (handler.addr & 0xffff) as u16,
                gdt_selector: cs,
                options: option_word(false, 0, true),
                pointer_middle: (handler.addr >> 16) as u16,
                kind: old(self)@.kind,
            }) && final(self)@.addr() == handler.addr,
            handler.kind != old(self)@.kind ==> r == Err::<(), IdtError>(IdtError::KindMismatch)
                && final(self)@ == old(self)@,
    {
        if handler.kind == self.kind {
            self.set_handle_addr(handler.addr, cs);
            Ok(())
        } else {
            Err(IdtError::KindMismatch)
        }
    }
}

/// The number of descriptors in the table.
pub const ENTRY_COUNT: usize = 256;

/// The number of bytes each descriptor occupies in the packed table.
pub const ENTRY_BYTES: usize = 8;

/// The packed little-endian form of one descriptor: low address word,
/// selector, option word, middle address word, each low byte first.
pub open spec fn entry_bytes(e: InterruptEntryView) -> Seq<u8> {
    seq![
        (e.pointer_low & 0xff) as u8,
        (e.pointer_low >> 8) as u8,
        (e.gdt_selector.0 & 0xff) as u8,
        (e.gdt_selector.0 >> 8) as u8,
        (e.options & 0xff) as u8,
        (e.options >> 8) as u8,
        (e.pointer_middle & 0xff) as u8,
        (e.pointer_middle >> 8) as u8,
    ]
}

/// The table of 256 descriptors the CPU consults on every trap and
/// interrupt.  The architecturally defined exceptions have named fields,
/// each created with the handler kind its vector requires; the device
/// and software vectors 32 to 255 sit in an indexed array.
pub struct InterruptDescriptorTable {
    /// Vector 0: divide error.
    pub divide_error: InterruptEntry,
    /// Vector 1: debug exception.
    pub debug: InterruptEntry,
    /// Vector 2: non-maskable interrupt.
    pub non_maskable_interrupt: InterruptEntry,
    /// Vector 3: breakpoint.
    pub breakpoint: InterruptEntry,
    /// Vector 4: overflow.
    pub overflow: InterruptEntry,
    /// Vector 5: bound-range exceeded.
    pub bound_range_exceeded: InterruptEntry,
    /// Vector 6: invalid opcode.
    pub invalid_opcode: InterruptEntry,
    /// Vector 7: device not available.
    pub device_not_available: InterruptEntry,
    /// Vector 8: double fault; its handler never returns and takes the
    /// always-zero error code.
    pub double_fault: InterruptEntry,
    coprocessor_segment_overrun: InterruptEntry,
    /// Vector 10: invalid TSS; the error code is the faulting selector.
    pub invalid_tss: InterruptEntry,
    /// Vector 11: segment not present.
    pub segment_not_present: InterruptEntry,
    /// Vector 12: stack-segment fault.
    pub stack_segment_fault: InterruptEntry,
    /// Vector 13: general protection fault.
    pub general_protection_fault: InterruptEntry,
    /// Vector 14: page fault.
    pub page_fault: InterruptEntry,
    reserved_1: InterruptEntry,
    /// Vector 16: x87 floating-point exception.
    pub x87_floating_point: InterruptEntry,
    /// Vector 17: alignment check.
    pub alignment_check: InterruptEntry,
    /// Vector 18: machine check; its handler never returns.
    pub machine_check: InterruptEntry,
    /// Vector 19: SIMD floating-point exception.
    pub simd_floating_point: InterruptEntry,
    /// Vector 20: virtualization exception.
    pub virtualization: InterruptEntry,
    reserved_2: Vec<InterruptEntry>,
    /// Vector 30: security exception.
    pub security_exception: InterruptEntry,
    reserved_3: InterruptEntry,
    interrupts: Vec<InterruptEntry>,
}

impl InterruptDescriptorTable {
    /// The two private arrays hold their full complement of vectors.
    pub closed spec fn wf(self) -> bool {
        self.reserved_2@.len() == 9 && self.interrupts@.len() == 224
    }

    /// The descriptor the table holds for vector `v`.
    pub closed spec fn entry_at(self, v: int) -> InterruptEntry {
        if v == 0 {
            self.divide_error
        } else if v == 1 {
            self.debug
        } else if v == 2 {
            self.non_maskable_interrupt
        } else if v == 3 {
            self.breakpoint
        } else if v == 4 {
            self.overflow
        } else if v == 5 {
            self.bound_range_exceeded
        } else if v == 6 {
            self.invalid_opcode
        } else if v == 7 {
            self.device_not_available
        } else if v == 8 {
            self.double_fault
        } else if v == 9 {
            self.coprocessor_segment_overrun
        } else if v == 10 {
            self.invalid_tss
        } else if v == 11 {
            self.segment_not_present
        } else if v == 12 {
            self.stack_segment_fault
        } else if v == 13 {
            self.general_protection_fault
        } else if v == 14 {
            self.page_fault
        } else if v == 15 {
            self.reserved_1
        } else if v == 16 {
            self.x87_floating_point
        } else if v == 17 {
            self.alignment_check
        } else if v == 18 {
            self.machine_check
        } else if v == 19 {
            self.simd_floating_point
        } else if v == 20 {
            self.virtualization
        } else if 21 <= v <= 29 {
            self.reserved_2@[v - 21]
        } else if v == 30 {
            self.security_exception
        } else if v == 31 {
            self.reserved_3
        } else if 32 <= v < 256 {
            self.interrupts@[v - 32]
        } else {
            self.divide_error
        }
    }

    /// The architecturally reserved vectors are all absent, as they must
    /// stay for the whole life of the table.
    pub open spec fn reserved_absent(self) -> bool {
        forall|v: int|
            0 <= v < 256 && crate::vector::spec_reserved(v) ==> !present_bit(
                (#[trigger] self.entry_at(v))@.options,
            )
    }

    /// Every entry carries the handler kind its vector requires, so a
    /// handler of any other kind is refused at installation.
    pub open spec fn kinds_required(self) -> bool {
        forall|v: int|
            0 <= v < 256 ==> (#[trigger] self.entry_at(v))@.kind
                == crate::vector::spec_required_kind(v)
    }

    /// A fresh table: every one of the 256 entries absent, each carrying
    /// the handler kind its vector requires.
    pub fn new() -> (r: InterruptDescriptorTable)
        ensures
            r.wf(),
            forall|v: int|
                0 <= v < 256 ==> (#[trigger] r.entry_at(v))@ == InterruptEntryView::absent(
                    crate::vector::spec_required_kind(v),
                ),
            forall|v: int| 0 <= v < 256 ==> !present_bit((#[trigger] r.entry_at(v))@.options),
            r.reserved_absent(),
            r.kinds_required(),
    {
        let mut reserved_2: Vec<InterruptEntry> = Vec::new();
        let mut i: usize = 0;
        while i < 9
            invariant
                i <= 9,
                reserved_2@.len() == i,
                forall|j: int|
                    0 <= j < i ==> (#[trigger] reserved_2@[j])@ == InterruptEntryView::absent(
                        HandlerKind::Plain,
                    ),
            decreases 9 - i,
        {
            reserved_2.push(InterruptEntry::new(HandlerKind::Plain));
            i = i + 1;
        }
        let mut interrupts: Vec<InterruptEntry> = Vec::new();
        let mut k: usize = 0;
        while k < 224
            invariant
                k <= 224,
                interrupts@.len() == k,
                forall|j: int|
                    0 <= j < k ==> (#[trigger] interrupts@[j])@ == InterruptEntryView::absent(
                        HandlerKind::Plain,
                    ),
            decreases 224 - k,
        {
            interrupts.push(InterruptEntry::new(HandlerKind::Plain));
            k = k + 1;
        }
        let r = InterruptDescriptorTable {
            divide_error: InterruptEntry::new(HandlerKind::Plain),
            debug: InterruptEntry::new(HandlerKind::Plain),
            non_maskable_interrupt: InterruptEntry::new(HandlerKind::Plain),
            breakpoint: InterruptEntry::new(HandlerKind::Plain),
            overflow: InterruptEntry::new(HandlerKind::Plain),
            bound_range_exceeded: InterruptEntry::new(HandlerKind::Plain),
            invalid_opcode: InterruptEntry::new(HandlerKind::Plain),
            device_not_available: InterruptEntry::new(HandlerKind::Plain),
            double_fault: InterruptEntry::new(HandlerKind::DivergingWithErrorCode),
            coprocessor_segment_overrun: InterruptEntry::new(HandlerKind::Plain),
            invalid_tss: InterruptEntry::new(HandlerKind::WithErrorCode),
            segment_not_present: InterruptEntry::new(HandlerKind::WithErrorCode),
            stack_segment_fault: InterruptEntry::new(HandlerKind::WithErrorCode),
            general_protection_fault: InterruptEntry::new(HandlerKind::WithErrorCode),
            page_fault: InterruptEntry::new(HandlerKind::WithErrorCode),
            reserved_1: InterruptEntry::new(HandlerKind::Plain),
            x87_floating_point: InterruptEntry::new(HandlerKind::Plain),
            alignment_check: InterruptEntry::new(HandlerKind::WithErrorCode),
            machine_check: InterruptEntry::new(HandlerKind::Diverging),
            simd_floating_point: InterruptEntry::new(HandlerKind::Plain),
            virtualization: InterruptEntry::new(HandlerKind::Plain),
            reserved_2,
            security_exception: InterruptEntry::new(HandlerKind::WithErrorCode),
            reserved_3: InterruptEntry::new(HandlerKind::Plain),
            interrupts,
        };
        proof {
            assert(!present_bit(0x0e00)) by (bit_vector);
            assert forall|v: int| 0 <= v < 256 implies (#[trigger] r.entry_at(v))@
                == InterruptEntryView::absent(crate::vector::spec_required_kind(v)) by {
                if 21 <= v <= 29 {
                    assert(r.entry_at(v) == r.reserved_2@[v - 21]);
                } else if 32 <= v < 256 {
                    assert(r.entry_at(v) == r.interrupts@[v - 32]);
                }
            }
        }
        r
    }

    /// The operand for the privileged instruction that makes this table
    /// the CPU's active one: the table's 2048-byte size minus one, and
    /// the address its packed form lives at.  After the instruction has
    /// run, the memory at that address must never move or be freed.
    pub fn update(&self, base: u32) -> (r: DescriptorTablePointer)
        ensures
            r == (DescriptorTablePointer { limit: (ENTRY_COUNT * ENTRY_BYTES - 1) as u16, base }),
            r.limit == 2047,
    {
        DescriptorTablePointer { limit: (ENTRY_COUNT * ENTRY_BYTES - 1) as u16, base }
    }

    /// Validated indexed access.  The plain defined exceptions and the
    /// device and software vectors 32 to 255 are returned; a reserved
    /// vector, a vector whose handler takes an error code, and the
    /// diverging machine-check vector are refused, each with the error
    /// naming its category.
    pub fn index(&self, index: usize) -> (r: Result<InterruptEntry, IdtError>)
        requires
            self.wf(),
        ensures
            crate::vector::spec_plain_exception(index as int) || (32 <= index < 256) ==> r
                == Ok::<InterruptEntry, IdtError>(self.entry_at(index as int)),
            crate::vector::spec_reserved(index as int) ==> r == Err::<InterruptEntry, IdtError>(
                IdtError::ReservedVector,
            ),
            crate::vector::spec_has_error_code(index as int) ==> r == Err::<
                InterruptEntry,
                IdtError,
            >(IdtError::ErrorCodeVector),
            index == 18 ==> r == Err::<InterruptEntry, IdtError>(IdtError::DivergingVector),
            index > 255 ==> r == Err::<InterruptEntry, IdtError>(IdtError::NoSuchVector),
    {
        match index {
            0 => Ok(self.divide_error),
            1 => Ok(self.debug),
            2 => Ok(self.non_maskable_interrupt),
            3 => Ok(self.breakpoint),
            4 => Ok(self.overflow),
            5 => Ok(self.bound_range_exceeded),
            6 => Ok(self.invalid_opcode),
            7 => Ok(self.device_not_available),
            16 => Ok(self.x87_floating_point),
            19 => Ok(self.simd_floating_point),
            9 | 15 | 31 => Err(IdtError::ReservedVector),
            20..=29 => Err(IdtError::ReservedVector),
            8 | 17 | 30 => Err(IdtError::ErrorCodeVector),
            10..=14 => Err(IdtError::ErrorCodeVector),
            18 => Err(IdtError::DivergingVector),
            32..=255 => Ok(self.interrupts[index - 32]),
            _ => Err(IdtError::NoSuchVector),
        }
    }

    /// The descriptor for any vector, reserved ones included; the raw
    /// read that diagnostics and the packed encoding rest on.
    pub fn raw_entry(&self, vector: u8) -> (r: InterruptEntry)
        requires
            self.wf(),
        ensures
            r == self.entry_at(vector as int),
    {
        match vector {
            0 => self.divide_error,
            1 => self.debug,
            2 => self.non_maskable_interrupt,
            3 => self.breakpoint,
            4 => self.overflow,
            5 => self.bound_range_exceeded,
            6 => self.invalid_opcode,
            7 => self.device_not_available,
            8 => self.double_fault,
            9 => self.coprocessor_segment_overrun,
            10 => self.invalid_tss,
            11 => self.segment_not_present,
            12 => self.stack_segment_fault,
            13 => self.general_protection_fault,
            14 => self.page_fault,
            15 => self.reserved_1,
            16 => self.x87_floating_point,
            17 => self.alignment_check,
            18 => self.machine_check,
            19 => self.simd_floating_point,
            20 => self.virtualization,
            21..=29 => self.reserved_2[(vector - 21) as usize],
            30 => self.security_exception,
            31 => self.reserved_3,
            _ => self.interrupts[(vector as usize) - 32],
        }
    }

    /// Installs a handler through the validated indexed path.  The vector
    /// must be one the indexed path serves, and the handler's declared
    /// kind must match the entry's kind; otherwise nothing changes and
    /// the error names what was wrong.
    #[verifier::rlimit(60)]
    pub fn set_handle_fn_at(&mut self, index: usize, handler: HandlerRef, cs: SegmentSelector) -> (r:
        Result<(), IdtError>)
        requires
            old(self).wf(),
        ensures
            final(self).wf(),
            forall|v: int|
                0 <= v < 256 && crate::vector::spec_reserved(v)
                    ==> #[trigger] final(self).entry_at(v) == old(self).entry_at(v),
            forall|v: int|
                0 <= v < 256
                    ==> (#[trigger] final(self).entry_at(v))@.kind == old(self).entry_at(v)@.kind,
            (crate::vector::spec_plain_exception(index as int) || (32 <= index < 256))
                && handler.kind == old(self).entry_at(index as int)@.kind ==> r is Ok
                && final(self).entry_at(index as int)@ == (InterruptEntryView {
                pointer_low: (handler.addr & 0xffff) as u16,
                gdt_selector: cs,
                options: option_word(false, 0, true),
                pointer_middle: (handler.addr >> 16) as u16,
                kind: old(self).entry_at(index as int)@.kind,
            }) && final(self).entry_at(index as int)@.addr() == handler.addr && (forall|v: int|
                0 <= v < 256 && v != index ==> #[trigger] final(self).entry_at(v) == old(self).entry_at(v)),
            (crate::vector::spec_plain_exception(index as int) || (32 <= index < 256))
                && handler.kind != old(self).entry_at(index as int)@.kind ==> r == Err::<
                (),
                IdtError,
            >(IdtError::KindMismatch) && *final(self) == *old(self),
            crate::vector::spec_reserved(index as int) ==> r == Err::<(), IdtError>(
                IdtError::ReservedVector,
            ) && *final(self) == *old(self),
            crate::vector::spec_has_error_code(index as int) ==> r == Err::<(), IdtError>(
                IdtError::ErrorCodeVector,
            ) && *final(self) == *old(self),
            index == 18 ==> r == Err::<(), IdtError>(IdtError::DivergingVector) && *final(self)
                == *old(self),
            index > 255 ==> r == Err::<(), IdtError>(IdtError::NoSuchVector) && *final(self)
                == *old(self),
    {
        let r = match index {
            0 => self.divide_error.set_handle_fn(handler, cs),
            1 => self.debug.set_handle_fn(handler, cs),
            2 => self.non_maskable_interrupt.set_handle_fn(handler, cs),
            3 => self.breakpoint.set_handle_fn(handler, cs),
            4 => self.overflow.set_handle_fn(handler, cs),
            5 => self.bound_range_exceeded.set_handle_fn(handler, cs),
            6 => self.invalid_opcode.set_handle_fn(handler, cs),
            7 => self.device_not_available.set_handle_fn(handler, cs),
            16 => self.x87_floating_point.set_handle_fn(handler, cs),
            19 => self.simd_floating_point.set_handle_fn(handler, cs),
            9 | 15 | 31 => Err(IdtError::ReservedVector),
            20..=29 => Err(IdtError::ReservedVector),
            8 | 17 | 30 => Err(IdtError::ErrorCodeVector),
            10..=14 => Err(IdtError::ErrorCodeVector),
            18 => Err(IdtError::DivergingVector),
            32..=255 => {
                let i = index - 32;
                let mut e = self.interrupts[i];
                match e.set_handle_fn(handler, cs) {
                    Ok(()) => {
                        self.interrupts[i] = e;
                        Ok(())
                    },
                    Err(err) => Err(err),
                }
            },
            _ => Err(IdtError::NoSuchVector),
        };
        r
    }

    /// The packed 2048-byte image of the table: 256 descriptors of 8
    /// bytes each, vector `v` at offset `8 * v`, with no padding between
    /// entries.  This image is what the published base address points at.
    pub fn encode(&self) -> (r: Vec<u8>)
        requires
            self.wf(),
        ensures
            r@.len() == 2048,
            forall|v: int|
                0 <= v < 256 ==> #[trigger] r@.subrange(v * 8, v * 8 + 8) == entry_bytes(
                    self.entry_at(v)@,
                ),
    {
        let mut out: Vec<u8> = Vec::new();
        let mut v: usize = 0;
        while v < 256
            invariant
                self.wf(),
                out@.len() == v * 8,
                v <= 256,
                forall|k: int|
                    0 <= k < v ==> #[trigger] out@.subrange(k * 8, k * 8 + 8) == entry_bytes(
                        self.entry_at(k)@,
                    ),
            decreases 256 - v,
        {
            let ghost pre = out@;
            let e = self.raw_entry(v as u8);
            let mut b = e.encode();
            out.append(&mut b);
            proof {
                assert forall|k: int| 0 <= k < v + 1 implies #[trigger] out@.subrange(
                    k * 8,
                    k * 8 + 8,
                ) == entry_bytes(self.entry_at(k)@) by {
                    if k < v {
                        assert(out@.subrange(k * 8, k * 8 + 8) =~= pre.subrange(k * 8, k * 8 + 8));
                    } else {
                        assert(out@.subrange(k * 8, k * 8 + 8) =~= entry_bytes(
                            self.entry_at(k)@,
                        ));
                    }
                }
            }
            v = v + 1;
        }
        out
    }
}

/// The saved register state a handler observes: the interrupted
/// instruction pointer, the code segment it ran under, and the flags
/// register.  A hardware error code, where the vector pushes one, reaches
/// the handler as a separate argument.
#[derive(Debug, Clone, Copy, PartialEq, Eq, Structural)]
pub struct ExceptionStackFrame {
    /// Instruction pointer saved by the transfer.
    pub instruction_pointer: u32,
    /// Code segment selector of the interrupted context.
    pub code_segment: SegmentSelector,
    /// Flags register of the interrupted context.
    pub cpu_flags: u32,
}

/// The single acknowledgment write that re-arms the master interrupt
/// controller after a handler for one of its vectors has run.
pub fn end_of_interrupt() -> (w: PortWrite)
    ensures
        w == (PortWrite { port: 0x20, data: 0x20 }),
{
    PortWrite { port: 0x20, data: 0x20 }
}

} // verus!
