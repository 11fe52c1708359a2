//! The interrupt vector table and the handlers behind it.
//!
//! A handler is a transition: it takes the state it works on and what the
//! CPU delivered, and hands back how the exception ends or which interrupt
//! is to be acknowledged. Nothing here blocks, and no handler of a hardware
//! interrupt can end without naming its vector for the acknowledgement.

use crate::gdt::{stack_top, InterruptStackTable, DOUBLE_FAULT_IST_INDEX, IST_SLOTS, STACK_SIZE};
use crate::keyboard::{
    completes_scancode, decoded, key_view, modifiers, opens_sequence, pending, pending_after,
    DecodedKey, KeyboardDecoder,
};
use crate::panic::{success_report, Terminal, TestVerdict};
use crate::qemu::{host_status, port_value, ExitCode};
use crate::vga::{_print, flushed_to, print_line, FrameBuffer, ScreenState, VgaWriter, LINE_FEED};
use vstd::prelude::*;
use vstd::string::*;
use x86_64::structures::idt::{InterruptStackFrameValue, PageFaultErrorCode};
use x86_64::VirtAddr;

verus! {

/// Number of vectors that the CPU reserves for its exceptions.
pub const RESERVED_VECTORS: u8 = 32;

/// Number of lines of one interrupt controller.
pub const CONTROLLER_LINES: u8 = 8;

/// First vector of the primary interrupt controller.
pub const PIC_1_OFFSET: u8 = 32;

/// First vector of the secondary interrupt controller.
pub const PIC_2_OFFSET: u8 = PIC_1_OFFSET + 8;

/// Vector of the breakpoint exception.
pub const BREAKPOINT_VECTOR: u8 = 3;

/// Vector of the double fault exception.
pub const DOUBLE_FAULT_VECTOR: u8 = 8;

/// Vector of the page fault exception.
pub const PAGE_FAULT_VECTOR: u8 = 14;

/// Number of slots of the vector table.
pub const VECTORS: usize = 256;

/// The hardware interrupts in use.
#[derive(Clone, Copy, Debug, PartialEq, Eq, Structural)]
pub enum InterruptIndex {
    Timer,
    Keyboard,
}

impl InterruptIndex {
    /// The vector of the interrupt: the lines of the primary controller in
    /// order, from its first vector on.
    pub open spec fn vector(self) -> u8 {
        match self {
            InterruptIndex::Timer => PIC_1_OFFSET,
            InterruptIndex::Keyboard => (PIC_1_OFFSET + 1) as u8,
        }
    }

    /// The vector of the interrupt, as the controllers name it: a line of
    /// the primary controller, behind the vectors of the exceptions.
    pub fn as_u8(self) -> (vector: u8)
        ensures
            vector == self.vector(),
            PIC_1_OFFSET <= vector < PIC_1_OFFSET + CONTROLLER_LINES,
            vector >= RESERVED_VECTORS,
    {
        match self {
            InterruptIndex::Timer => PIC_1_OFFSET,
            InterruptIndex::Keyboard => PIC_1_OFFSET + 1,
        }
    }

    /// The vector of the interrupt, as an index into the vector table.
    pub fn as_usize(self) -> (vector: usize)
        ensures
            vector == self.vector(),
            vector < VECTORS,
    {
        self.as_u8() as usize
    }
}

/// The handlers of the kernel.
#[derive(Clone, Copy, Debug, PartialEq, Eq, Structural)]
pub enum Handler {
    Breakpoint,
    DoubleFault,
    PageFault,
    Timer,
    Keyboard,
}

/// An entry of the vector table: the handler, and the slot of the interrupt
/// stack table whose stack the handler runs on, if it has a stack of its
/// own.
#[derive(Clone, Copy, Debug, PartialEq, Eq, Structural)]
pub struct Entry {
    pub handler: Handler,
    pub stack_index: Option<u16>,
}

/// The table of `init_idt`, slot by slot.
pub open spec fn kernel_entry(vector: int) -> Option<Entry> {
    if vector == BREAKPOINT_VECTOR {
        Some(Entry { handler: Handler::Breakpoint, stack_index: None })
    } else if vector == DOUBLE_FAULT_VECTOR {
        Some(Entry { handler: Handler::DoubleFault, stack_index: Some(DOUBLE_FAULT_IST_INDEX) })
    } else if vector == PAGE_FAULT_VECTOR {
        Some(Entry { handler: Handler::PageFault, stack_index: None })
    } else if vector == InterruptIndex::Timer.vector() {
        Some(Entry { handler: Handler::Timer, stack_index: None })
    } else if vector == InterruptIndex::Keyboard.vector() {
        Some(Entry { handler: Handler::Keyboard, stack_index: None })
    } else {
        None
    }
}

/// Where an exception stands between its delivery and its end.
#[derive(Debug, PartialEq, Eq)]
pub enum ExceptionState {
    /// Nothing was raised.
    Idle,
    /// The CPU has pushed the stack frame and entered the handler.
    Dispatched(Handler),
    /// The handler has returned and the interrupted code goes on.
    Resumed,
    /// The vector has no handler: the CPU raises a double fault in its
    /// place.
    Escalated,
    /// The handler does not return. The kernel panics with the report.
    Terminated(String),
}

/// The interrupt vector table: one slot for each of the 256 vectors.
pub struct InterruptDescriptorTable {
    entries: [Option<Entry>; VECTORS],
}

impl View for InterruptDescriptorTable {
    type V = Seq<Option<Entry>>;

    closed spec fn view(&self) -> Seq<Option<Entry>> {
        self.entries@
    }
}

impl InterruptDescriptorTable {
    /// Every stack index names a slot of the interrupt stack table.
    #[verifier::type_invariant]
    spec fn stacks_exist(self) -> bool {
        forall|vector: int|
            0 <= vector < VECTORS ==> match #[trigger] self.entries@[vector] {
                Some(entry) => entry.stack_index matches Some(index) ==> index < IST_SLOTS,
                None => true,
            }
    }

    /// A table without handlers.
    pub fn new() -> (table: InterruptDescriptorTable)
        ensures
            table@ == Seq::new(VECTORS as nat, |vector: int| None::<Entry>),
    {
        InterruptDescriptorTable { entries: [None; VECTORS] }
    }

    /// Sets the handler of `vector`. The handler runs on the stack of the
    /// interrupted code until a stack index is set.
    pub fn set_handler(&mut self, vector: u8, handler: Handler)
        ensures
            final(self)@ == old(self)@.update(
                vector as int,
                Some(Entry { handler, stack_index: None }),
            ),
    {
        proof {
            use_type_invariant(&*self);
        }
        self.entries[vector as usize] = Some(Entry { handler, stack_index: None });
    }

    /// Gives the handler of `vector` the stack of slot `index`. A vector
    /// without a handler, or an index past the interrupt stack table,
    /// leaves the table as it is and returns `false`.
    pub fn set_stack_index(&mut self, vector: u8, index: u16) -> (done: bool)
        ensures
            done <==> old(self)@[vector as int] is Some && index < IST_SLOTS,
            done ==> final(self)@ == old(self)@.update(
                vector as int,
                Some(
                    Entry { handler: old(self)@[vector as int]->0.handler, stack_index: Some(index) },
                ),
            ),
            !done ==> final(self)@ == old(self)@,
    {
        proof {
            use_type_invariant(&*self);
        }
        match self.entries[vector as usize] {
            Some(entry) => {
                if (index as usize) < IST_SLOTS {
                    self.entries[vector as usize] = Some(
                        Entry { handler: entry.handler, stack_index: Some(index) },
                    );
                    true
                } else {
                    false
                }
            },
            None => false,
        }
    }

    /// The entry of `vector`.
    pub fn entry(&self, vector: u8) -> (entry: Option<Entry>)
        ensures
            entry == self@[vector as int],
            entry matches Some(e) ==> (e.stack_index matches Some(index) ==> index < IST_SLOTS),
    {
        proof {
            use_type_invariant(self);
        }
        self.entries[vector as usize]
    }

    /// What the CPU does when `vector` is raised: it enters the handler, or,
    /// where there is none, escalates to a double fault.
    pub fn dispatch(&self, vector: u8) -> (state: ExceptionState)
        ensures
            state == match self@[vector as int] {
                Some(entry) => ExceptionState::Dispatched(entry.handler),
                None => ExceptionState::Escalated,
            },
    {
        match self.entries[vector as usize] {
            Some(entry) => ExceptionState::Dispatched(entry.handler),
            None => ExceptionState::Escalated,
        }
    }
}

/// Builds the vector table of the kernel: breakpoint, double fault on its
/// own stack, page fault, and the two hardware interrupts in use.
pub fn init_idt() -> (table: InterruptDescriptorTable)
    ensures
        table@ == Seq::new(VECTORS as nat, |vector: int| kernel_entry(vector)),
{
    let mut idt = InterruptDescriptorTable::new();
    idt.set_handler(BREAKPOINT_VECTOR, Handler::Breakpoint);
    idt.set_handler(DOUBLE_FAULT_VECTOR, Handler::DoubleFault);
    idt.set_stack_index(DOUBLE_FAULT_VECTOR, DOUBLE_FAULT_IST_INDEX);
    idt.set_handler(PAGE_FAULT_VECTOR, Handler::PageFault);
    idt.set_handler(InterruptIndex::Timer.as_u8(), Handler::Timer);
    idt.set_handler(InterruptIndex::Keyboard.as_u8(), Handler::Keyboard);
    idt
}

/// Before interrupts are enabled every vector in use has its handler: the
/// double fault and the page fault, and the two hardware interrupts. The
/// double fault runs on the stack that is reserved for it, and no other
/// vector has a handler but the breakpoint.
pub proof fn lemma_kernel_vectors_populated(table: Seq<Option<Entry>>)
    requires
        table == Seq::new(VECTORS as nat, |vector: int| kernel_entry(vector)),
    ensures
        table[DOUBLE_FAULT_VECTOR as int] == Some(
            Entry { handler: Handler::DoubleFault, stack_index: Some(DOUBLE_FAULT_IST_INDEX) },
        ),
        DOUBLE_FAULT_IST_INDEX < IST_SLOTS,
        table[PAGE_FAULT_VECTOR as int] is Some,
        forall|interrupt: InterruptIndex| (#[trigger] table[interrupt.vector() as int]) is Some,
        forall|vector: int|
            0 <= vector < VECTORS && (#[trigger] table[vector]) is Some ==> vector
                == BREAKPOINT_VECTOR || vector == DOUBLE_FAULT_VECTOR || vector
                == PAGE_FAULT_VECTOR || vector >= RESERVED_VECTORS,
{
}

/// The double fault handler runs on the stack that is reserved for it: the
/// slot that its entry names holds the top of that stack, a whole stack
/// above the stack's start, whatever has become of the stack of the
/// interrupted code.
pub proof fn lemma_double_fault_stack_reserved(
    table: Seq<Option<Entry>>,
    stacks: InterruptStackTable,
    stack_start: u64,
)
    requires
        table == Seq::new(VECTORS as nat, |vector: int| kernel_entry(vector)),
        stacks.reserves(stack_start),
    ensures
        table[DOUBLE_FAULT_VECTOR as int] matches Some(entry) && entry.stack_index matches Some(
            index,
        ) && stacks.slots@[index as int] == stack_top(stack_start) && stacks.slots@[index as int]
            - stack_start == STACK_SIZE,
        forall|vector: int|
            0 <= vector < VECTORS && vector != DOUBLE_FAULT_VECTOR ==> (
            #[trigger] table[vector] matches Some(entry) ==> entry.stack_index is None),
{
    assert(stacks.slots@[DOUBLE_FAULT_IST_INDEX as int] == stack_top(stack_start));
}

/// A double fault that a test expects ends the test with success. The table
/// of the kernel sends the double fault to its handler on the reserved
/// stack, so the handler runs even where the stack of the interrupted code
/// is exhausted; and the verdict of a test kernel on a panic that it
/// expects is the same for every report: the emulator exits with the status
/// of success, which no failure shares.
pub proof fn lemma_expected_double_fault_succeeds(
    table: Seq<Option<Entry>>,
    stacks: InterruptStackTable,
    stack_start: u64,
    verdict: TestVerdict,
)
    requires
        table == Seq::new(VECTORS as nat, |vector: int| kernel_entry(vector)),
        stacks.reserves(stack_start),
        verdict.report@ == success_report(),
        verdict.terminal == Terminal::Exit(ExitCode::Success),
    ensures
        table[DOUBLE_FAULT_VECTOR as int] == Some(
            Entry { handler: Handler::DoubleFault, stack_index: Some(DOUBLE_FAULT_IST_INDEX) },
        ),
        stacks.slots@[DOUBLE_FAULT_IST_INDEX as int] == stack_top(stack_start),
        verdict.terminal matches Terminal::Exit(code) && host_status(port_value(code)) == 33
            && host_status(port_value(code)) != host_status(port_value(ExitCode::Failed)),
        verdict.terminal != Terminal::Halt,
{
    lemma_double_fault_stack_reserved(table, stacks, stack_start);
}

/// What the CPU pushes on the stack before it enters a handler.
#[derive(Clone, Copy, Debug, PartialEq, Eq, Structural)]
pub struct InterruptStackFrame {
    pub instruction_pointer: u64,
    pub code_segment: u64,
    pub cpu_flags: u64,
    pub stack_pointer: u64,
    pub stack_segment: u64,
}

/// `x86_64::structures::idt::InterruptStackFrameValue`: the stack frame in
/// the form whose `Debug` text the reports show.
#[verifier::external_type_specification]
#[verifier::external_body]
pub struct ExInterruptStackFrameValue(InterruptStackFrameValue);

/// `x86_64::VirtAddr`: a canonical virtual address.
#[verifier::external_type_specification]
#[verifier::external_body]
pub struct ExVirtAddr(VirtAddr);

/// What is known of a CPU exception when it is reported. The error code and
/// the additional information differ from exception to exception.
#[derive(Debug)]
struct CpuExceptionError<E, I> {
    exception: &'static str,
    stack_frame: InterruptStackFrameValue,
    optional_error_code: E,
    additional_info: I,
}

/// The address whose access raised a page fault.
#[derive(Debug)]
struct AccessedAddress(VirtAddr);

/// The report of an exception that has neither an error code nor additional
/// information.
pub uninterp spec fn exception_report(exception: Seq<char>, stack_frame: InterruptStackFrame) -> Seq<
    char,
>;

/// The report of an exception with a plain error code.
pub uninterp spec fn coded_exception_report(
    exception: Seq<char>,
    stack_frame: InterruptStackFrame,
    error_code: u64,
) -> Seq<char>;

/// The report of a page fault on an access to `accessed_address`.
pub uninterp spec fn page_fault_report(
    exception: Seq<char>,
    stack_frame: InterruptStackFrame,
    error_code: u64,
    accessed_address: u64,
) -> Seq<char>;

/// Renders the report of an exception without error code: the multi-line
/// `Debug` text of the report, with the stack frame in the form and the text
/// of `x86_64`. The addresses are taken with `VirtAddr::new_truncate`, which
/// leaves a canonical address as it is. The text depends on nothing but the
/// arguments.
#[verifier::external_body]
fn render(exception: &'static str, frame: &InterruptStackFrame) -> (text: String)
    ensures
        text@ == exception_report(exception@, *frame),
{
    let stack_frame = InterruptStackFrameValue {
        instruction_pointer: VirtAddr::new_truncate(frame.instruction_pointer),
        code_segment: frame.code_segment,
        cpu_flags: frame.cpu_flags,
        stack_pointer: VirtAddr::new_truncate(frame.stack_pointer),
        stack_segment: frame.stack_segment,
    };
    format!(
        "{:#?}",
        CpuExceptionError { exception, stack_frame, optional_error_code: (), additional_info: () }
    )
}

/// Renders the report of an exception with a plain error code, as [`render`]
/// does; the error code shows as a number.
#[verifier::external_body]
fn render_coded(exception: &'static str, frame: &InterruptStackFrame, error_code: u64) -> (text:
    String)
    ensures
        text@ == coded_exception_report(exception@, *frame, error_code),
{
    let stack_frame = InterruptStackFrameValue {
        instruction_pointer: VirtAddr::new_truncate(frame.instruction_pointer),
        code_segment: frame.code_segment,
        cpu_flags: frame.cpu_flags,
        stack_pointer: VirtAddr::new_truncate(frame.stack_pointer),
        stack_segment: frame.stack_segment,
    };
    format!(
        "{:#?}",
        CpuExceptionError { exception, stack_frame, optional_error_code: error_code, additional_info: () }
    )
}

/// Renders the report of a page fault, as [`render`] does; the error code
/// shows as the flags of `PageFaultErrorCode::from_bits_retain`, the address
/// as a `VirtAddr`.
#[verifier::external_body]
fn render_page_fault(
    exception: &'static str,
    frame: &InterruptStackFrame,
    error_code: u64,
    accessed_address: u64,
) -> (text: String)
    ensures
        text@ == page_fault_report(exception@, *frame, error_code, accessed_address),
{
    let stack_frame = InterruptStackFrameValue {
        instruction_pointer: VirtAddr::new_truncate(frame.instruction_pointer),
        code_segment: frame.code_segment,
        cpu_flags: frame.cpu_flags,
        stack_pointer: VirtAddr::new_truncate(frame.stack_pointer),
        stack_segment: frame.stack_segment,
    };
    let optional_error_code = PageFaultErrorCode::from_bits_retain(error_code);
    let additional_info = AccessedAddress(VirtAddr::new_truncate(accessed_address));
    format!(
        "{:#?}",
        CpuExceptionError { exception, stack_frame, optional_error_code, additional_info }
    )
}

/// The bytes that a text puts on the screen.
pub open spec fn text_bytes(text: Seq<char>) -> Seq<u8> {
    vstd::utf8::encode_utf8(text)
}

/// Handler of the breakpoint exception: reports it on the screen, on a line
/// of its own, and lets the interrupted code go on.
pub fn breakpoint_handler(
    writer: &mut VgaWriter,
    device: &mut FrameBuffer,
    stack_frame: InterruptStackFrame,
) -> (state: ExceptionState)
    ensures
        state == ExceptionState::Resumed,
        final(writer)@ == old(writer)@.write(
            text_bytes(exception_report("breakpoint"@, stack_frame)) + seq![LINE_FEED],
        ),
        final(writer)@.wf(),
        final(device).holds(final(writer)@.grid),
{
    let text = render("breakpoint", &stack_frame);
    print_line(writer, device, text.as_str());
    ExceptionState::Resumed
}

/// Handler of the double fault exception. There is nothing to return to:
/// the exception ends in a panic with the report.
pub fn double_fault_handler(stack_frame: InterruptStackFrame, error_code: u64) -> (state:
    ExceptionState)
    ensures
        state matches ExceptionState::Terminated(report) && report@ == coded_exception_report(
            "double fault"@,
            stack_frame,
            error_code,
        ),
{
    ExceptionState::Terminated(render_coded("double fault", &stack_frame, error_code))
}

/// Handler of the page fault exception. The kernel has no paging to repair
/// the access with: the exception ends in a panic with the report, which
/// holds the address that was accessed.
pub fn page_fault_handler(
    stack_frame: InterruptStackFrame,
    error_code: u64,
    accessed_address: u64,
) -> (state: ExceptionState)
    ensures
        state matches ExceptionState::Terminated(report) && report@ == page_fault_report(
            "page fault"@,
            stack_frame,
            error_code,
            accessed_address,
        ),
{
    ExceptionState::Terminated(
        render_page_fault("page fault", &stack_frame, error_code, accessed_address),
    )
}

/// Handler of the timer interrupt: puts a dot on the screen. Returns the
/// vector to acknowledge.
pub fn timer_interrupt_handler(writer: &mut VgaWriter, device: &mut FrameBuffer) -> (end_of_interrupt:
    u8)
    ensures
        end_of_interrupt == InterruptIndex::Timer.vector(),
        final(writer)@ == old(writer)@.write(seq![0x2e_u8]),
        final(writer)@.wf(),
        final(device).holds(final(writer)@.grid),
{
    _print(writer, device, ".");
    proof {
        reveal_strlit(".");
        is_ascii_spec_bytes(".");
    }
    InterruptIndex::Timer.as_u8()
}

/// The screen after `key` was echoed: the text of the key is appended, and
/// without a key nothing changes.
pub open spec fn echoed(state: ScreenState, key: Option<DecodedKey>) -> ScreenState {
    match key {
        Some(key) => state.write(text_bytes(key.spec_text())),
        None => state,
    }
}

/// Puts the text of `key` on the screen, if there is a key, and copies the
/// grid to the device image. Without a key nothing is written and the image
/// stays as it is.
pub fn echo_key(writer: &mut VgaWriter, device: &mut FrameBuffer, key: &Option<DecodedKey>)
    ensures
        final(writer)@ == echoed(old(writer)@, *key),
        flushed_to(*final(device), *old(device), *key is Some, final(writer)@.grid),
{
    match key {
        Some(key) => {
            let text = key.text();
            _print(writer, device, text.as_str());
        },
        None => {},
    }
}

/// What the keyboard handler did with a scancode byte.
pub struct KeyboardInterrupt {
    /// The key that the byte completed and that was echoed, if any.
    pub key: Option<DecodedKey>,
    /// The vector to acknowledge.
    pub end_of_interrupt: u8,
}

/// Handler of the keyboard interrupt: feeds the byte that was read from the
/// keyboard to the decoder and echoes the key that it completes. Whatever
/// the byte is, the handler returns, and it names its vector for the
/// acknowledgement.
pub fn keyboard_interrupt_handler(
    keyboard: &mut KeyboardDecoder,
    writer: &mut VgaWriter,
    device: &mut FrameBuffer,
    scancode: u8,
) -> (handled: KeyboardInterrupt)
    ensures
        handled.end_of_interrupt == InterruptIndex::Keyboard.vector(),
        pending(*final(keyboard)) == pending_after(pending(*old(keyboard)), scancode),
        (key_view(handled.key), modifiers(*final(keyboard))) == decoded(
            pending(*old(keyboard)),
            modifiers(*old(keyboard)),
            scancode,
        ),
        !completes_scancode(pending(*old(keyboard)), scancode) ==> handled.key is None,
        opens_sequence(pending(*old(keyboard)), scancode) ==> handled.key is None,
        final(writer)@ == echoed(old(writer)@, handled.key),
        flushed_to(*final(device), *old(device), handled.key is Some, final(writer)@.grid),
{
    let key = keyboard.handle_byte(scancode);
    echo_key(writer, device, &key);
    KeyboardInterrupt { key, end_of_interrupt: InterruptIndex::Keyboard.as_u8() }
}

} // verus!
