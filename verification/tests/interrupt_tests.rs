use kernel_console::interrupts::BREAKPOINT_VECTOR;
use kernel_console::interrupts::DOUBLE_FAULT_VECTOR;
use kernel_console::interrupts::Disposition;
use kernel_console::interrupts::GENERAL_PROTECTION_VECTOR;
use kernel_console::interrupts::HandlerKind;
use kernel_console::interrupts::INVALID_OPCODE_VECTOR;
use kernel_console::interrupts::InterruptIndex;
use kernel_console::interrupts::VectorTable;
use kernel_console::interrupts::disposition_of;
use kernel_console::interrupts::init_idt;
use kernel_console::interrupts::report_heading;
use kernel_console::pic::ChainedPics;
use kernel_console::pic::EoiPlan;
use kernel_console::pic::PIC_1_OFFSET;
use kernel_console::pic::PIC_2_OFFSET;

#[test]
fn interrupt_lines_have_remapped_vectors() {
    assert_eq!(InterruptIndex::Timer.as_u8(), 32);
    assert_eq!(InterruptIndex::Keyboard.as_u8(), 33);
    assert_eq!(InterruptIndex::Timer.as_usize(), 32);
    assert_eq!(InterruptIndex::Keyboard.as_usize(), 33);
}

#[test]
fn init_idt_installs_all_boot_handlers_and_loads() {
    let t = init_idt();
    assert!(t.is_loaded());
    assert_eq!(t.dispatch(BREAKPOINT_VECTOR), Some(HandlerKind::Breakpoint));
    assert_eq!(t.dispatch(DOUBLE_FAULT_VECTOR), Some(HandlerKind::DoubleFault));
    assert_eq!(
        t.dispatch(GENERAL_PROTECTION_VECTOR),
        Some(HandlerKind::GeneralProtection)
    );
    assert_eq!(t.dispatch(INVALID_OPCODE_VECTOR), Some(HandlerKind::InvalidOpcode));
    assert_eq!(t.dispatch(32), Some(HandlerKind::Timer));
    assert_eq!(t.dispatch(33), Some(HandlerKind::Keyboard));
    assert_eq!(t.dispatch(0), None);
    assert_eq!(t.dispatch(255), None);
}

#[test]
fn fresh_table_is_unloaded_and_empty() {
    let t = VectorTable::new();
    assert!(!t.is_loaded());
    assert_eq!(t.dispatch(BREAKPOINT_VECTOR), None);
}

#[test]
fn table_load_transition_happens_once() {
    let mut t = VectorTable::new();
    t.set_handler(BREAKPOINT_VECTOR, HandlerKind::Breakpoint);
    assert!(!t.is_loaded());
    t.load();
    assert!(t.is_loaded());
    assert_eq!(t.dispatch(BREAKPOINT_VECTOR), Some(HandlerKind::Breakpoint));
}

#[test]
fn only_the_double_fault_halts() {
    assert_eq!(disposition_of(HandlerKind::DoubleFault), Disposition::Halt);
    assert_eq!(disposition_of(HandlerKind::Breakpoint), Disposition::Resume);
    assert_eq!(disposition_of(HandlerKind::GeneralProtection), Disposition::Resume);
    assert_eq!(disposition_of(HandlerKind::InvalidOpcode), Disposition::Resume);
    assert_eq!(disposition_of(HandlerKind::Timer), Disposition::Resume);
    assert_eq!(disposition_of(HandlerKind::Keyboard), Disposition::Resume);
}

#[test]
fn fault_handlers_report_their_exception() {
    assert_eq!(report_heading(HandlerKind::Breakpoint), "EXCEPTION: BREAKPOINT");
    assert_eq!(report_heading(HandlerKind::DoubleFault), "EXCEPTION: DOUBLE FAULT");
    assert_eq!(
        report_heading(HandlerKind::GeneralProtection),
        "EXCEPTION: GENERAL PROTECTION"
    );
    assert_eq!(report_heading(HandlerKind::InvalidOpcode), "EXCEPTION: INVALID OPCODE");
    assert_eq!(report_heading(HandlerKind::Timer), "");
    assert_eq!(report_heading(HandlerKind::Keyboard), "");
}

#[test]
fn secondary_vector_acknowledges_both_controllers() {
    let pics = ChainedPics::remap(PIC_1_OFFSET, PIC_2_OFFSET);
    for vector in 40..=47u8 {
        let plan = pics.acknowledge(vector);
        assert_eq!(plan, EoiPlan::SecondaryThenPrimary);
        assert_eq!(plan.op_count(), 2);
    }
}

#[test]
fn primary_vector_acknowledges_exactly_once() {
    let pics = ChainedPics::remap(PIC_1_OFFSET, PIC_2_OFFSET);
    for vector in 32..=39u8 {
        let plan = pics.acknowledge(vector);
        assert_eq!(plan, EoiPlan::PrimaryOnly);
        assert_eq!(plan.op_count(), 1);
    }
}

#[test]
fn foreign_vector_acknowledges_nothing() {
    let pics = ChainedPics::remap(PIC_1_OFFSET, PIC_2_OFFSET);
    assert_eq!(pics.acknowledge(3), EoiPlan::NotHandled);
    assert_eq!(pics.acknowledge(3).op_count(), 0);
    assert_eq!(pics.acknowledge(48), EoiPlan::NotHandled);
    assert_eq!(pics.acknowledge(255), EoiPlan::NotHandled);
}

#[test]
fn handles_interrupt_covers_both_ranges() {
    let pics = ChainedPics::remap(PIC_1_OFFSET, PIC_2_OFFSET);
    assert!(pics.handles_interrupt(32));
    assert!(pics.handles_interrupt(39));
    assert!(pics.handles_interrupt(40));
    assert!(pics.handles_interrupt(47));
    assert!(!pics.handles_interrupt(31));
    assert!(!pics.handles_interrupt(48));
}
