//! The exception dispatch table: which vectors have a handler, with what gate
//! attributes, and what each handler does once it has logged the fault.

use vstd::prelude::*;

use crate::gdt::DOUBLE_FAULT_IST_INDEX;

verus! {

/// Number of vectors in the table.
pub const VECTOR_COUNT: usize = 256;

pub const BREAKPOINT_VECTOR: u8 = 3;

pub const DOUBLE_FAULT_VECTOR: u8 = 8;

pub const GENERAL_PROTECTION_VECTOR: u8 = 13;

pub const PAGE_FAULT_VECTOR: u8 = 14;

/// The handler an entry leads to. Each has the signature of its exception class:
/// breakpoint gets the frame, general protection and double fault also an error
/// code, page fault the page-fault code, and the double-fault handler never
/// returns.
#[derive(Clone, Copy, Debug, PartialEq, Eq)]
pub enum Handler {
    Breakpoint,
    GeneralProtection,
    PageFault,
    DoubleFault,
}

/// One gate of the table.
#[derive(Clone, Copy, Debug, PartialEq, Eq)]
pub struct GateEntry {
    pub handler: Handler,
    pub present: bool,
    /// Descriptor privilege level; ring 0 is the kernel.
    pub privilege: u8,
    /// The interrupt stack table slot to switch to; `None` keeps the current stack.
    pub stack_index: Option<u16>,
}

/// A present kernel gate to `handler`, switching to `stack_index` if given.
pub open spec fn gate(handler: Handler, stack_index: Option<u16>) -> GateEntry {
    GateEntry { handler, present: true, privilege: 0, stack_index }
}

/// What the table holds at vector `v`.
pub open spec fn entry_for(v: int) -> Option<GateEntry> {
    if v == BREAKPOINT_VECTOR {
        Some(gate(Handler::Breakpoint, None))
    } else if v == DOUBLE_FAULT_VECTOR {
        Some(gate(Handler::DoubleFault, Some(DOUBLE_FAULT_IST_INDEX)))
    } else if v == GENERAL_PROTECTION_VECTOR {
        Some(gate(Handler::GeneralProtection, None))
    } else if v == PAGE_FAULT_VECTOR {
        Some(gate(Handler::PageFault, None))
    } else {
        None
    }
}

fn make_gate(handler: Handler, stack_index: Option<u16>) -> (r: GateEntry)
    ensures
        r == gate(handler, stack_index),
{
    GateEntry { handler, present: true, privilege: 0, stack_index }
}

/// The built table, one slot per vector, not yet loaded into the processor.
pub struct DispatchTable {
    entries: Vec<Option<GateEntry>>,
}

impl View for DispatchTable {
    type V = Seq<Option<GateEntry>>;

    closed spec fn view(&self) -> Seq<Option<GateEntry>> {
        self.entries@
    }
}

impl DispatchTable {
    /// The entry of `vector`.
    pub fn entry(&self, vector: u8) -> (r: Option<GateEntry>)
        requires
            self@.len() == VECTOR_COUNT,
        ensures
            r == self@[vector as int],
    {
        self.entries[vector as usize]
    }
}

/// Builds the dispatch table: breakpoint, general protection, page fault and
/// double fault have present kernel gates, every other vector is empty, and only
/// the double fault switches stacks, to the reserved one.
pub fn init_idt() -> (t: DispatchTable)
    ensures
        t@.len() == VECTOR_COUNT,
        forall|v: int| 0 <= v < VECTOR_COUNT ==> #[trigger] t@[v] == entry_for(v),
{
    let mut entries: Vec<Option<GateEntry>> = Vec::new();
    let mut v: usize = 0;
    while v < VECTOR_COUNT
        invariant
            v <= VECTOR_COUNT,
            entries@.len() == v,
            forall|u: int| 0 <= u < v ==> #[trigger] entries@[u] == entry_for(u),
        decreases VECTOR_COUNT - v,
    {
        let e = if v == BREAKPOINT_VECTOR as usize {
            Some(make_gate(Handler::Breakpoint, None))
        } else if v == DOUBLE_FAULT_VECTOR as usize {
            Some(make_gate(Handler::DoubleFault, Some(DOUBLE_FAULT_IST_INDEX)))
        } else if v == GENERAL_PROTECTION_VECTOR as usize {
            Some(make_gate(Handler::GeneralProtection, None))
        } else if v == PAGE_FAULT_VECTOR as usize {
            Some(make_gate(Handler::PageFault, None))
        } else {
            None
        };
        entries.push(e);
        v = v + 1;
    }
    DispatchTable { entries }
}

/// Whether general-protection and page faults resume after being logged or are
/// fatal. Resuming is the default; with no memory manager it is unsound in the
/// long run.
#[derive(Clone, Copy, Debug, PartialEq, Eq)]
pub enum FaultPolicy {
    Resume,
    Escalate,
}

/// What a handler does after logging.
#[derive(Clone, Copy, Debug, PartialEq, Eq)]
pub enum FaultAction {
    /// Return to the interrupted code.
    Resume,
    /// Force-release the diagnostic lock, report, and take the fatal path.
    Fatal,
}

pub open spec fn action_for(handler: Handler, policy: FaultPolicy) -> FaultAction {
    match handler {
        Handler::Breakpoint => FaultAction::Resume,
        Handler::DoubleFault => FaultAction::Fatal,
        _ => if policy == FaultPolicy::Resume {
            FaultAction::Resume
        } else {
            FaultAction::Fatal
        },
    }
}

/// A breakpoint always resumes, a double fault is always fatal, general
/// protection and page faults follow `policy`.
pub fn fault_action(handler: Handler, policy: FaultPolicy) -> (r: FaultAction)
    ensures
        r == action_for(handler, policy),
{
    match handler {
        Handler::Breakpoint => FaultAction::Resume,
        Handler::DoubleFault => FaultAction::Fatal,
        _ => match policy {
            FaultPolicy::Resume => FaultAction::Resume,
            FaultPolicy::Escalate => FaultAction::Fatal,
        },
    }
}

/// How the fatal path ends.
#[derive(Clone, Copy, Debug, PartialEq, Eq)]
pub enum FatalExit {
    /// Signal success through the debug-exit port: in a test configuration the
    /// fatal path is the expected end.
    ExitSuccess,
    /// Halt the processor in a low-power loop.
    Halt,
}

pub fn fatal_exit(test_configuration: bool) -> (r: FatalExit)
    ensures
        r == if test_configuration {
            FatalExit::ExitSuccess
        } else {
            FatalExit::Halt
        },
{
    if test_configuration {
        FatalExit::ExitSuccess
    } else {
        FatalExit::Halt
    }
}

} // verus!
