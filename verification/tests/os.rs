use rondos::interrupt::{EntryOptions, Idt, Interrupts};
use rondos::loader::SEGMENT_KERNEL_CODE;
use rondos::os::{Os, RondOs};
use rondos::reg::{DescriptorTablePointer, PrivilegeLevel, SegmentSelector};
use rondos::thread::{Thread, ThreadState};

#[test]
fn idt_set_handler_installs_under_kernel_code() {
    let mut idt = Idt::new();
    for v in 0..=255u8 {
        assert!(idt.entry(v).pointer() == 0);
    }
    idt.set_handler(Interrupts::BreakpointException.vector(), 0x00402abc);
    let e = idt.entry(3);
    assert_eq!(e.pointer(), 0x00402abc);
    assert_eq!(idt.entry(4).pointer(), 0);
    let p = idt.load(0x00200000);
    assert_eq!(p, DescriptorTablePointer { limit: 2047, base: 0x00200000 });
}

#[test]
fn idt_set_options_keeps_address() {
    let mut idt = Idt::new();
    idt.set_handler(3, 0x1234_5678);
    let mut options = EntryOptions::new();
    options.set_privilege_level(3);
    options.set_stack_index(1);
    idt.set_options(3, options);
    assert_eq!(idt.entry(3).pointer(), 0x1234_5678);
}

#[test]
fn interrupts_vectors() {
    assert_eq!(Interrupts::DivideError.vector(), 0);
    assert_eq!(Interrupts::BreakpointException.vector(), 3);
    assert_eq!(Interrupts::DoubleFaultException.vector(), 8);
    assert_eq!(Interrupts::PageFaultException.vector(), 14);
    assert_eq!(Interrupts::FPUFloatingPointException.vector(), 16);
    assert_eq!(Interrupts::SIMDFloatingPointException.vector(), 19);
}

#[test]
fn boot_sequence_wires_handlers() {
    let mut os = Os::new();
    os.init();
    let kernel = os.get_mut();
    let pic_writes = kernel.intr_init(0x1000, 0x2000, 0x3000);
    assert_eq!(pic_writes.len(), 12);
    let pit_writes = kernel.timer_init(0x4000);
    assert_eq!(pit_writes.len(), 3);
    kernel.keyboard_init(0x5000);

    let kernel = os.get();
    assert_eq!(kernel.idt.entry(3).pointer(), 0x1000);
    assert_eq!(kernel.idt.entry(14).pointer(), 0x2000);
    assert_eq!(kernel.idt.entry(8).pointer(), 0x3000);
    assert_eq!(kernel.idt.entry(0x20).pointer(), 0x4000);
    assert_eq!(kernel.idt.entry(0x21).pointer(), 0x5000);
    assert_eq!(kernel.idt.entry(0).pointer(), 0);
}

#[test]
fn fresh_kernel_table_absent() {
    let os = RondOs::new();
    for v in 0..=255u8 {
        // Bit 15 of the option word is the present bit.
        assert_eq!(os.idt.entry(v).options().raw() & 0x8000, 0, "vector {}", v);
    }
}

#[test]
fn segment_selector_round_trip() {
    let sel = SegmentSelector::new(1, PrivilegeLevel::Ring0);
    assert_eq!(sel.0, SEGMENT_KERNEL_CODE);
    assert_eq!(sel.index(), 1);
    assert_eq!(sel.rpl(), PrivilegeLevel::Ring0);
    let mut sel = SegmentSelector::new(5, PrivilegeLevel::Ring3);
    assert_eq!(sel.0, 5 << 3 | 3);
    assert_eq!(sel.index(), 5);
    assert_eq!(sel.rpl(), PrivilegeLevel::Ring3);
    sel.set_rpl(PrivilegeLevel::Ring1);
    assert_eq!(sel.index(), 5);
    assert_eq!(sel.rpl(), PrivilegeLevel::Ring1);
}

#[test]
fn thread_record() {
    let t = Thread::new(0xc0200000, 1, ThreadState::Ready);
    assert_eq!(t.stack, 0xc0200000);
    assert_eq!(t.pid, 1);
    assert_eq!(t.state, ThreadState::Ready);
}

#[test]
fn privilege_level_values() {
    assert_eq!(PrivilegeLevel::from_u16(0), PrivilegeLevel::Ring0);
    assert_eq!(PrivilegeLevel::from_u16(3), PrivilegeLevel::Ring3);
    assert_eq!(PrivilegeLevel::Ring2.to_u16(), 2);
}
