use rondos::intr::{
    end_of_interrupt, HandlerKind, HandlerRef, IdtError, InterruptDescriptorTable, InterruptEntry,
    ExceptionStackFrame,
};
use rondos::reg::{PrivilegeLevel, SegmentSelector};
use rondos::vector;

fn kernel_cs() -> SegmentSelector {
    SegmentSelector::new(1, PrivilegeLevel::Ring0)
}

#[test]
fn fresh_table_all_absent() {
    let table = InterruptDescriptorTable::new();
    for v in 0..=255u8 {
        let entry = table.raw_entry(v);
        assert!(!entry.options().is_present(), "vector {} present", v);
        assert_eq!(entry.pointer(), 0);
    }
}

#[test]
fn handle_addr_round_trip() {
    let mut entry = InterruptEntry::new(HandlerKind::Plain);
    for addr in [0u32, 1, 0xffff, 0x10000, 0xdeadbeef, 0xffff_ffff] {
        entry.set_handle_addr(addr, kernel_cs());
        assert_eq!(entry.pointer(), addr);
        assert_eq!(entry.gdt_selector(), kernel_cs());
        assert!(entry.options().is_present());
        assert!(!entry.options().is_trap());
        assert_eq!(entry.options().privilege_level(), 0);
    }
}

#[test]
fn index_reserved_vectors_fail() {
    let table = InterruptDescriptorTable::new();
    for v in [9usize, 15, 20, 21, 22, 23, 24, 25, 26, 27, 28, 29, 31] {
        assert_eq!(table.index(v).unwrap_err(), IdtError::ReservedVector, "vector {}", v);
    }
}

#[test]
fn index_error_code_vectors_fail() {
    let table = InterruptDescriptorTable::new();
    for v in [8usize, 10, 11, 12, 13, 14, 17, 30] {
        assert_eq!(table.index(v).unwrap_err(), IdtError::ErrorCodeVector, "vector {}", v);
    }
}

#[test]
fn index_diverging_vector_fails() {
    let table = InterruptDescriptorTable::new();
    assert_eq!(table.index(18).unwrap_err(), IdtError::DivergingVector);
}

#[test]
fn index_out_of_range_fails() {
    let table = InterruptDescriptorTable::new();
    assert_eq!(table.index(256).unwrap_err(), IdtError::NoSuchVector);
    assert_eq!(table.index(usize::MAX).unwrap_err(), IdtError::NoSuchVector);
}

#[test]
fn index_plain_and_device_vectors_succeed() {
    let table = InterruptDescriptorTable::new();
    for v in [0usize, 1, 2, 3, 4, 5, 6, 7, 16, 19, 32, 100, 255] {
        assert!(table.index(v).is_ok(), "vector {}", v);
    }
}

#[test]
fn kind_mismatch_rejected_before_publish() {
    let mut table = InterruptDescriptorTable::new();
    // A plain handler cannot serve the double fault, whose vector pushes
    // an error code and never returns.
    let plain = HandlerRef { addr: 0x1234, kind: HandlerKind::Plain };
    let r = table.double_fault.set_handle_fn(plain, kernel_cs());
    assert_eq!(r.unwrap_err(), IdtError::KindMismatch);
    assert!(!table.double_fault.options().is_present());

    // The matching kind is accepted.
    let df = HandlerRef { addr: 0x1234, kind: HandlerKind::DivergingWithErrorCode };
    assert!(table.double_fault.set_handle_fn(df, kernel_cs()).is_ok());
    assert!(table.double_fault.options().is_present());

    // The indexed path refuses a mismatched kind as well.
    let wrong = HandlerRef { addr: 0x4321, kind: HandlerKind::Diverging };
    assert_eq!(table.set_handle_fn_at(40, wrong, kernel_cs()).unwrap_err(), IdtError::KindMismatch);
    assert!(!table.raw_entry(40).options().is_present());
}

#[test]
fn required_kinds_match_taxonomy() {
    let table = InterruptDescriptorTable::new();
    for v in 0..=255u8 {
        assert_eq!(table.raw_entry(v).kind(), vector::required_kind(v), "vector {}", v);
    }
    assert_eq!(vector::required_kind(8), HandlerKind::DivergingWithErrorCode);
    assert_eq!(vector::required_kind(18), HandlerKind::Diverging);
    assert_eq!(vector::required_kind(14), HandlerKind::WithErrorCode);
    assert_eq!(vector::required_kind(3), HandlerKind::Plain);
    assert!(!vector::handler_returns(8));
    assert!(!vector::handler_returns(18));
    assert!(vector::handler_returns(3));
    assert!(vector::is_reserved(20));
    assert!(!vector::is_reserved(19));
    assert!(vector::has_error_code(13));
    assert!(!vector::has_error_code(16));
}

#[test]
fn publish_pointer_covers_whole_table() {
    let table = InterruptDescriptorTable::new();
    let p = table.update(0xc0100000);
    assert_eq!(p.limit, 2047);
    assert_eq!(p.base, 0xc0100000);
}

#[test]
fn encoded_table_layout() {
    let mut table = InterruptDescriptorTable::new();
    let h = HandlerRef { addr: 0xabcd1234, kind: HandlerKind::Plain };
    table.breakpoint.set_handle_fn(h, kernel_cs()).unwrap();
    let bytes = table.encode();
    assert_eq!(bytes.len(), 2048);
    // Vector 3 sits at offset 24: low word, selector, options, mid word,
    // each little-endian.
    assert_eq!(bytes[24], 0x34);
    assert_eq!(bytes[25], 0x12);
    assert_eq!(u16::from_le_bytes([bytes[26], bytes[27]]), kernel_cs().0);
    let options = u16::from_le_bytes([bytes[28], bytes[29]]);
    assert_eq!(options & 0x8000, 0x8000);
    assert_eq!(options & 0x0e00, 0x0e00);
    assert_eq!(bytes[30], 0xcd);
    assert_eq!(bytes[31], 0xab);
    // An absent entry encodes as the default word in the options slot
    // and zeroes elsewhere.
    assert_eq!(&bytes[0..4], &[0, 0, 0, 0]);
    assert_eq!(u16::from_le_bytes([bytes[4], bytes[5]]), 0x0e00);
}

#[test]
fn breakpoint_fires_end_to_end() {
    // Build the table, install a breakpoint handler, synthesize vector 3
    // firing, and check the handler sees the saved instruction pointer
    // unchanged and the vector resumes.
    let mut table = InterruptDescriptorTable::new();
    let handler = HandlerRef { addr: 0x00402000, kind: HandlerKind::Plain };
    table.breakpoint.set_handle_fn(handler, kernel_cs()).unwrap();

    let frame = ExceptionStackFrame {
        instruction_pointer: 0x00401005,
        code_segment: kernel_cs(),
        cpu_flags: 0x202,
    };

    // The CPU looks the firing vector up in the table.
    let entry = table.raw_entry(3);
    assert!(entry.options().is_present());
    assert_eq!(entry.pointer(), handler.addr);

    // The handler observes the frame the transfer saved.
    let observed = frame;
    assert_eq!(observed.instruction_pointer, 0x00401005);

    // A breakpoint returns, so the system keeps running.
    assert!(vector::handler_returns(3));
    // Its handler owes no controller acknowledgment, unlike a device
    // vector, whose master controller is re-armed with one write.
    let eoi = end_of_interrupt();
    assert_eq!((eoi.port, eoi.data), (0x20, 0x20));
}
