//! Interrupt vector table model and handler dispositions.
//!
//! The table maps CPU exception numbers and the two remapped hardware
//! interrupt numbers to handler kinds. It is installed once at boot and
//! loaded once; no further transition exists. Handlers themselves are
//! classified by how they end: the recoverable exceptions report and
//! resume, the double fault is fatal, the two hardware interrupts service
//! their device and acknowledge the controller.

use vstd::prelude::*;
use crate::pic::PIC_1_OFFSET;

verus! {

/// Vector number of the breakpoint exception.
pub const BREAKPOINT_VECTOR: u8 = 3;

/// Vector number of the invalid opcode exception.
pub const INVALID_OPCODE_VECTOR: u8 = 6;

/// Vector number of the double fault exception.
pub const DOUBLE_FAULT_VECTOR: u8 = 8;

/// Vector number of the general protection fault exception.
pub const GENERAL_PROTECTION_VECTOR: u8 = 13;

/// How many entries the vector table has.
pub const VECTOR_COUNT: usize = 256;

/// The two hardware interrupt lines the table serves, by their remapped
/// vector numbers.
#[derive(Clone, Copy, Debug, PartialEq, Eq, Structural)]
pub enum InterruptIndex {
    /// The periodic timer line, first vector above the reserved exceptions.
    Timer,
    /// The keyboard line, one vector after the timer.
    Keyboard,
}

impl InterruptIndex {
    /// The remapped vector number of the line.
    pub fn as_u8(self) -> (v: u8)
        ensures
            self == InterruptIndex::Timer ==> v == PIC_1_OFFSET,
            self == InterruptIndex::Keyboard ==> v == PIC_1_OFFSET + 1,
    {
        match self {
            InterruptIndex::Timer => PIC_1_OFFSET,
            InterruptIndex::Keyboard => PIC_1_OFFSET + 1,
        }
    }

    /// The remapped vector number of the line, as a table index.
    pub fn as_usize(self) -> (v: usize)
        ensures
            self == InterruptIndex::Timer ==> v == PIC_1_OFFSET,
            self == InterruptIndex::Keyboard ==> v == PIC_1_OFFSET + 1,
    {
        self.as_u8() as usize
    }
}

/// The handlers the table can hold.
#[derive(Clone, Copy, Debug, PartialEq, Eq, Structural)]
pub enum HandlerKind {
    /// Report the breakpoint and resume.
    Breakpoint,
    /// Fatal: the CPU has already failed to recover once; report and halt.
    DoubleFault,
    /// Report the general protection fault and resume.
    GeneralProtection,
    /// Report the invalid opcode and resume.
    InvalidOpcode,
    /// Acknowledge the timer interrupt.
    Timer,
    /// Read one scancode, feed the decoder, drive the console, acknowledge.
    Keyboard,
}

/// How a handler leaves the machine: recoverable faults and hardware
/// interrupts resume the interrupted code, the fatal fault halts for good.
#[derive(Clone, Copy, Debug, PartialEq, Eq, Structural)]
pub enum Disposition {
    /// Execution resumes at the interrupted instruction stream.
    Resume,
    /// The machine halts permanently.
    Halt,
}

/// A snapshot of the interrupted context, as the CPU pushes it for a fault.
#[derive(Clone, Copy, Debug, PartialEq, Eq, Structural)]
pub struct FaultFrame {
    /// Address of the next instruction of the interrupted stream.
    pub instruction_pointer: u64,
    /// Code segment selector at the time of the fault.
    pub code_segment: u64,
    /// CPU flags at the time of the fault.
    pub cpu_flags: u64,
    /// Stack pointer at the time of the fault.
    pub stack_pointer: u64,
    /// Stack segment selector at the time of the fault.
    pub stack_segment: u64,
}

/// How each handler kind ends: only the double fault is fatal.
pub open spec fn spec_disposition_of(kind: HandlerKind) -> Disposition {
    match kind {
        HandlerKind::DoubleFault => Disposition::Halt,
        _ => Disposition::Resume,
    }
}

/// Decide how a handler ends: the double fault halts, everything else
/// reports or services its device and resumes.
pub fn disposition_of(kind: HandlerKind) -> (d: Disposition)
    ensures
        d == spec_disposition_of(kind),
{
    match kind {
        HandlerKind::DoubleFault => Disposition::Halt,
        _ => Disposition::Resume,
    }
}

/// The diagnostic heading a handler reports before resuming or halting.
pub open spec fn spec_report_heading(kind: HandlerKind) -> Seq<char> {
    match kind {
        HandlerKind::Breakpoint => "EXCEPTION: BREAKPOINT"@,
        HandlerKind::DoubleFault => "EXCEPTION: DOUBLE FAULT"@,
        HandlerKind::GeneralProtection => "EXCEPTION: GENERAL PROTECTION"@,
        HandlerKind::InvalidOpcode => "EXCEPTION: INVALID OPCODE"@,
        HandlerKind::Timer => ""@,
        HandlerKind::Keyboard => ""@,
    }
}

/// The diagnostic heading a handler reports: the exception's name for the
/// faults, nothing for the two hardware lines, which report nothing.
pub fn report_heading(kind: HandlerKind) -> (s: &'static str)
    ensures
        s@ == spec_report_heading(kind),
{
    match kind {
        HandlerKind::Breakpoint => "EXCEPTION: BREAKPOINT",
        HandlerKind::DoubleFault => "EXCEPTION: DOUBLE FAULT",
        HandlerKind::GeneralProtection => "EXCEPTION: GENERAL PROTECTION",
        HandlerKind::InvalidOpcode => "EXCEPTION: INVALID OPCODE",
        HandlerKind::Timer => "",
        HandlerKind::Keyboard => "",
    }
}

/// The interrupt vector table: one optional handler per vector, and the
/// loaded flag. Unloaded tables can still be edited; a loaded table is
/// active and immutable.
pub struct VectorTable {
    entries: Vec<Option<HandlerKind>>,
    loaded: bool,
}

impl VectorTable {
    /// The handler installed for a vector.
    pub closed spec fn spec_entry(self, vector: int) -> Option<HandlerKind> {
        self.entries@[vector]
    }

    /// Whether the table has been activated.
    pub closed spec fn spec_loaded(self) -> bool {
        self.loaded
    }

    /// The table has one entry per vector number.
    pub closed spec fn wf(self) -> bool {
        self.entries@.len() == VECTOR_COUNT
    }

    /// The handler entries a booted system relies on: the four exception
    /// handlers at their architecturally fixed vectors and the two hardware
    /// lines at their remapped vectors.
    pub open spec fn fully_installed(self) -> bool {
        &&& self.spec_entry(BREAKPOINT_VECTOR as int) == Some(HandlerKind::Breakpoint)
        &&& self.spec_entry(DOUBLE_FAULT_VECTOR as int) == Some(HandlerKind::DoubleFault)
        &&& self.spec_entry(GENERAL_PROTECTION_VECTOR as int) == Some(
            HandlerKind::GeneralProtection,
        )
        &&& self.spec_entry(INVALID_OPCODE_VECTOR as int) == Some(HandlerKind::InvalidOpcode)
        &&& self.spec_entry(PIC_1_OFFSET as int) == Some(HandlerKind::Timer)
        &&& self.spec_entry(PIC_1_OFFSET + 1 as int) == Some(HandlerKind::Keyboard)
    }

    /// An empty, unloaded table.
    pub fn new() -> (t: VectorTable)
        ensures
            t.wf(),
            !t.spec_loaded(),
            forall|v: int| 0 <= v < VECTOR_COUNT ==> t.spec_entry(v) is None,
    {
        let mut entries: Vec<Option<HandlerKind>> = Vec::new();
        let mut i: usize = 0;
        while i < VECTOR_COUNT
            invariant
                i <= VECTOR_COUNT,
                entries@.len() == i,
                forall|v: int| 0 <= v < i ==> entries@[v] is None,
            decreases VECTOR_COUNT - i,
        {
            entries.push(None);
            i += 1;
        }
        VectorTable { entries, loaded: false }
    }

    /// Install a handler for a vector. Only an unloaded table can change.
    pub fn set_handler(&mut self, vector: u8, kind: HandlerKind)
        requires
            old(self).wf(),
            !old(self).spec_loaded(),
        ensures
            final(self).wf(),
            !final(self).spec_loaded(),
            final(self).spec_entry(vector as int) == Some(kind),
            forall|v: int|
                0 <= v < VECTOR_COUNT && v != vector ==> final(self).spec_entry(v) == old(
                    self,
                ).spec_entry(v),
    {
        self.entries[vector as usize] = Some(kind);
    }

    /// Activate the table. It must happen exactly once, before interrupts
    /// are enabled; a loaded table cannot be loaded again.
    pub fn load(&mut self)
        requires
            old(self).wf(),
            !old(self).spec_loaded(),
        ensures
            final(self).wf(),
            final(self).spec_loaded(),
            forall|v: int|
                0 <= v < VECTOR_COUNT ==> final(self).spec_entry(v) == old(self).spec_entry(v),
    {
        self.loaded = true;
    }

    /// Whether the table has been activated.
    pub fn is_loaded(&self) -> (b: bool)
        ensures
            b == self.spec_loaded(),
    {
        self.loaded
    }

    /// Look up the handler a vector dispatches to.
    pub fn dispatch(&self, vector: u8) -> (h: Option<HandlerKind>)
        requires
            self.wf(),
        ensures
            h == self.spec_entry(vector as int),
    {
        self.entries[vector as usize]
    }
}

/// Build and activate the boot vector table: breakpoint, double fault,
/// general protection and invalid opcode at their architectural vectors,
/// timer and keyboard at their remapped vectors, loaded exactly once.
pub fn init_idt() -> (t: VectorTable)
    ensures
        t.wf(),
        t.spec_loaded(),
        t.fully_installed(),
{
    let mut t = VectorTable::new();
    t.set_handler(BREAKPOINT_VECTOR, HandlerKind::Breakpoint);
    t.set_handler(DOUBLE_FAULT_VECTOR, HandlerKind::DoubleFault);
    t.set_handler(GENERAL_PROTECTION_VECTOR, HandlerKind::GeneralProtection);
    t.set_handler(INVALID_OPCODE_VECTOR, HandlerKind::InvalidOpcode);
    t.set_handler(InterruptIndex::Timer.as_u8(), HandlerKind::Timer);
    t.set_handler(InterruptIndex::Keyboard.as_u8(), HandlerKind::Keyboard);
    t.load();
    t
}

} // verus!
