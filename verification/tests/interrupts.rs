use blog_os::gdt::{DOUBLE_FAULT_IST_INDEX, IST_SLOTS};
use blog_os::interrupts::{
    breakpoint_handler, double_fault_handler, echo_key, init_idt, keyboard_interrupt_handler,
    page_fault_handler, timer_interrupt_handler, Entry, ExceptionState, Handler,
    InterruptDescriptorTable, InterruptIndex, InterruptStackFrame, BREAKPOINT_VECTOR,
    DOUBLE_FAULT_VECTOR, PAGE_FAULT_VECTOR, PIC_1_OFFSET, PIC_2_OFFSET,
};
use blog_os::keyboard::{DecodedKey, KeyboardDecoder};
use blog_os::vga::{FrameBuffer, VgaWriter, BUFFER_HEIGHT, BUFFER_WIDTH};

fn frame() -> InterruptStackFrame {
    InterruptStackFrame {
        instruction_pointer: 2101264,
        code_segment: 8,
        cpu_flags: 70,
        stack_pointer: 1114112,
        stack_segment: 0,
    }
}

fn screen_row(writer: &VgaWriter, row: usize) -> String {
    let mut text = String::new();
    for column in 0..BUFFER_WIDTH {
        text.push(writer.cell(row, column).unwrap().character as char);
    }
    text.trim_end().to_string()
}

fn blank_screen(writer: &VgaWriter) -> bool {
    (0..BUFFER_HEIGHT).all(|row| screen_row(writer, row).is_empty())
}

#[test]
fn hardware_vectors_follow_the_exceptions() {
    assert_eq!(PIC_1_OFFSET, 32);
    assert_eq!(PIC_2_OFFSET, 40);
    assert_eq!(InterruptIndex::Timer.as_u8(), 32);
    assert_eq!(InterruptIndex::Keyboard.as_u8(), 33);
    assert_eq!(InterruptIndex::Timer.as_usize(), 32);
    assert_eq!(InterruptIndex::Keyboard.as_usize(), 33);
}

#[test]
fn the_kernel_table_holds_the_five_handlers() {
    let idt = init_idt();
    for vector in 0..=255u8 {
        let expected = match vector {
            3 => Some(Entry { handler: Handler::Breakpoint, stack_index: None }),
            8 => Some(Entry { handler: Handler::DoubleFault, stack_index: Some(0) }),
            14 => Some(Entry { handler: Handler::PageFault, stack_index: None }),
            32 => Some(Entry { handler: Handler::Timer, stack_index: None }),
            33 => Some(Entry { handler: Handler::Keyboard, stack_index: None }),
            _ => None,
        };
        assert_eq!(idt.entry(vector), expected);
    }
    assert_eq!(BREAKPOINT_VECTOR, 3);
    assert_eq!(DOUBLE_FAULT_VECTOR, 8);
    assert_eq!(PAGE_FAULT_VECTOR, 14);
}

#[test]
fn the_double_fault_runs_on_the_reserved_stack() {
    let idt = init_idt();
    let entry = idt.entry(DOUBLE_FAULT_VECTOR).unwrap();
    assert_eq!(entry.stack_index, Some(DOUBLE_FAULT_IST_INDEX));
    assert!((DOUBLE_FAULT_IST_INDEX as usize) < IST_SLOTS);
}

#[test]
fn building_the_table_twice_gives_the_same_table() {
    let first = init_idt();
    let second = init_idt();
    for vector in 0..=255u8 {
        assert_eq!(first.entry(vector), second.entry(vector));
    }
}

#[test]
fn a_vector_without_a_handler_escalates() {
    let idt = init_idt();
    assert_eq!(idt.dispatch(3), ExceptionState::Dispatched(Handler::Breakpoint));
    assert_eq!(idt.dispatch(8), ExceptionState::Dispatched(Handler::DoubleFault));
    assert_eq!(idt.dispatch(33), ExceptionState::Dispatched(Handler::Keyboard));
    assert_eq!(idt.dispatch(0), ExceptionState::Escalated);
    assert_eq!(idt.dispatch(13), ExceptionState::Escalated);
    assert_eq!(InterruptDescriptorTable::new().dispatch(8), ExceptionState::Escalated);
}

#[test]
fn a_stack_index_needs_a_handler_and_a_slot() {
    let mut idt = InterruptDescriptorTable::new();
    assert!(!idt.set_stack_index(8, 0));
    assert_eq!(idt.entry(8), None);
    idt.set_handler(8, Handler::DoubleFault);
    assert!(!idt.set_stack_index(8, 7));
    assert_eq!(idt.entry(8), Some(Entry { handler: Handler::DoubleFault, stack_index: None }));
    assert!(idt.set_stack_index(8, 6));
    assert_eq!(idt.entry(8), Some(Entry { handler: Handler::DoubleFault, stack_index: Some(6) }));
    idt.set_handler(8, Handler::PageFault);
    assert_eq!(idt.entry(8), Some(Entry { handler: Handler::PageFault, stack_index: None }));
}

#[test]
fn test_breakpoint_exception() {
    let mut writer = VgaWriter::new();
    let mut device = FrameBuffer::new();
    let state = breakpoint_handler(&mut writer, &mut device, frame());
    assert_eq!(state, ExceptionState::Resumed);

    let expected = [
        "CpuExceptionError {",
        "    exception: \"breakpoint\",",
        "    stack_frame: InterruptStackFrame {",
        "        instruction_pointer: VirtAddr(",
        "            0x201010,",
        "        ),",
        "        code_segment: 8,",
        "        cpu_flags: 0x46,",
        "        stack_pointer: VirtAddr(",
        "            0x110000,",
        "        ),",
        "        stack_segment: 0,",
        "    },",
        "    optional_error_code: (),",
        "    additional_info: (),",
        "}",
        "",
    ];
    let first = BUFFER_HEIGHT - expected.len();
    for (line, text) in expected.iter().enumerate() {
        assert_eq!(screen_row(&writer, first + line), *text);
    }
    assert!((0..first).all(|row| screen_row(&writer, row).is_empty()));
    assert_eq!(writer.column(), 0);

    assert!(device.dirty);
    let mut shown = VgaWriter::new();
    shown.load(&device);
    assert_eq!(screen_row(&shown, BUFFER_HEIGHT - 2), "}");
}

#[test]
fn a_double_fault_ends_in_a_panic_with_the_report() {
    let state = double_fault_handler(frame(), 0);
    let expected = "CpuExceptionError {
    exception: \"double fault\",
    stack_frame: InterruptStackFrame {
        instruction_pointer: VirtAddr(
            0x201010,
        ),
        code_segment: 8,
        cpu_flags: 0x46,
        stack_pointer: VirtAddr(
            0x110000,
        ),
        stack_segment: 0,
    },
    optional_error_code: 0,
    additional_info: (),
}";
    assert_eq!(state, ExceptionState::Terminated(expected.to_string()));
}

#[test]
fn a_page_fault_ends_in_a_panic_that_names_the_address() {
    let state = page_fault_handler(frame(), 2, 0xdead_beef);
    let expected = "CpuExceptionError {
    exception: \"page fault\",
    stack_frame: InterruptStackFrame {
        instruction_pointer: VirtAddr(
            0x201010,
        ),
        code_segment: 8,
        cpu_flags: 0x46,
        stack_pointer: VirtAddr(
            0x110000,
        ),
        stack_segment: 0,
    },
    optional_error_code: PageFaultErrorCode(
        CAUSED_BY_WRITE,
    ),
    additional_info: AccessedAddress(
        VirtAddr(
            0xdeadbeef,
        ),
    ),
}";
    assert_eq!(state, ExceptionState::Terminated(expected.to_string()));
}

#[test]
fn a_page_fault_report_names_every_flag() {
    match page_fault_handler(frame(), 0b1_0101, 0) {
        ExceptionState::Terminated(report) => {
            assert!(report
                .contains("PROTECTION_VIOLATION | USER_MODE | INSTRUCTION_FETCH,"));
        }
        state => panic!("a page fault is terminal, not {:?}", state),
    }
}

#[test]
fn reports_differ_with_the_stack_frame() {
    let mut other = frame();
    other.stack_pointer = 0x11_0008;
    assert_ne!(double_fault_handler(frame(), 0), double_fault_handler(other, 0));
    assert_ne!(double_fault_handler(frame(), 0), double_fault_handler(frame(), 1));
    assert_ne!(page_fault_handler(frame(), 0, 8), page_fault_handler(frame(), 0, 16));
}

#[test]
fn an_expected_double_fault_ends_the_test_with_success() {
    let stacks = blog_os::gdt::init(0x30_0000).unwrap();
    let idt = init_idt();
    let entry = idt.entry(DOUBLE_FAULT_VECTOR).unwrap();
    let slot = entry.stack_index.unwrap() as usize;
    assert_eq!(stacks.slots[slot], 0x30_0000 + blog_os::gdt::STACK_SIZE);
    assert_eq!(idt.dispatch(DOUBLE_FAULT_VECTOR), ExceptionState::Dispatched(Handler::DoubleFault));

    let report = match double_fault_handler(frame(), 0) {
        ExceptionState::Terminated(report) => report,
        state => panic!("a double fault is terminal, not {:?}", state),
    };
    let verdict = blog_os::panic::fail_test_panic_handler(&report);
    assert_eq!(verdict.report, "[ok]\n");
    assert_eq!(
        verdict.terminal,
        blog_os::panic::Terminal::Exit(blog_os::qemu::ExitCode::Success)
    );
    assert_eq!(blog_os::qemu::ExitCode::Success.status(), 33);
}

#[test]
fn a_breakpoint_is_dispatched_and_resumes() {
    let idt = init_idt();
    assert_eq!(idt.dispatch(BREAKPOINT_VECTOR), ExceptionState::Dispatched(Handler::Breakpoint));
    let mut writer = VgaWriter::new();
    let mut device = FrameBuffer::new();
    for _ in 0..3 {
        assert_eq!(breakpoint_handler(&mut writer, &mut device, frame()), ExceptionState::Resumed);
    }
    assert_eq!(timer_interrupt_handler(&mut writer, &mut device), 32);
    assert_eq!(screen_row(&writer, BUFFER_HEIGHT - 1), ".");
}

#[test]
fn the_timer_puts_a_dot_and_names_its_vector() {
    let mut writer = VgaWriter::new();
    let mut device = FrameBuffer::new();
    assert_eq!(timer_interrupt_handler(&mut writer, &mut device), 32);
    assert_eq!(timer_interrupt_handler(&mut writer, &mut device), 32);
    assert_eq!(screen_row(&writer, BUFFER_HEIGHT - 1), "..");
    assert_eq!(device.bytes[2 * BUFFER_WIDTH * (BUFFER_HEIGHT - 1) + 2], b'.');
}

#[test]
fn the_keyboard_handler_echoes_the_key() {
    let mut keyboard = KeyboardDecoder::new();
    let mut writer = VgaWriter::new();
    let mut device = FrameBuffer::new();
    let handled = keyboard_interrupt_handler(&mut keyboard, &mut writer, &mut device, 0x23);
    assert_eq!(handled.key, Some(DecodedKey::Unicode('h')));
    assert_eq!(handled.end_of_interrupt, 33);
    let handled = keyboard_interrupt_handler(&mut keyboard, &mut writer, &mut device, 0x17);
    assert_eq!(handled.key, Some(DecodedKey::Unicode('i')));
    assert_eq!(screen_row(&writer, BUFFER_HEIGHT - 1), "hi");
    assert_eq!(device.bytes[2 * BUFFER_WIDTH * (BUFFER_HEIGHT - 1)], b'h');
}

#[test]
fn the_keyboard_handler_echoes_the_name_of_a_raw_key() {
    let mut keyboard = KeyboardDecoder::new();
    let mut writer = VgaWriter::new();
    let mut device = FrameBuffer::new();
    let handled = keyboard_interrupt_handler(&mut keyboard, &mut writer, &mut device, 0xe0);
    assert_eq!(handled.key, None);
    assert_eq!(handled.end_of_interrupt, 33);
    assert!(blank_screen(&writer));
    let handled = keyboard_interrupt_handler(&mut keyboard, &mut writer, &mut device, 0x4b);
    assert_eq!(handled.key, Some(DecodedKey::RawKey("ArrowLeft".to_string())));
    assert_eq!(handled.end_of_interrupt, 33);
    assert_eq!(screen_row(&writer, BUFFER_HEIGHT - 1), "ArrowLeft");
}

#[test]
fn the_keyboard_handler_acknowledges_whatever_the_byte() {
    let mut keyboard = KeyboardDecoder::new();
    let mut writer = VgaWriter::new();
    let mut device = FrameBuffer::new();
    for scancode in [0x00u8, 0x54, 0x7f, 0x9e, 0xd9, 0xe0, 0xff, 0xff] {
        let handled = keyboard_interrupt_handler(&mut keyboard, &mut writer, &mut device, scancode);
        assert_eq!(handled.key, None);
        assert_eq!(handled.end_of_interrupt, InterruptIndex::Keyboard.as_u8());
    }
    assert!(blank_screen(&writer));
    assert!(device.bytes.iter().all(|byte| *byte == 0));
    assert!(!device.dirty);
    let handled = keyboard_interrupt_handler(&mut keyboard, &mut writer, &mut device, 0x1e);
    assert_eq!(handled.key, Some(DecodedKey::Unicode('a')));
    assert!(device.dirty);
}

#[test]
fn the_enter_key_opens_a_new_line() {
    let mut keyboard = KeyboardDecoder::new();
    let mut writer = VgaWriter::new();
    let mut device = FrameBuffer::new();
    for scancode in [0x1e, 0x1c, 0x30] {
        keyboard_interrupt_handler(&mut keyboard, &mut writer, &mut device, scancode);
    }
    assert_eq!(screen_row(&writer, BUFFER_HEIGHT - 2), "a");
    assert_eq!(screen_row(&writer, BUFFER_HEIGHT - 1), "b");
}

#[test]
fn echoing_no_key_changes_nothing() {
    let mut writer = VgaWriter::new();
    let mut device = FrameBuffer::new();
    echo_key(&mut writer, &mut device, &None);
    assert!(blank_screen(&writer));
    assert!(device.bytes.iter().all(|byte| *byte == 0));
    echo_key(&mut writer, &mut device, &Some(DecodedKey::RawKey("F5".to_string())));
    echo_key(&mut writer, &mut device, &Some(DecodedKey::Unicode('!')));
    assert_eq!(screen_row(&writer, BUFFER_HEIGHT - 1), "F5!");
}
