//! What the kernel does when it panics.
//!
//! A panic is final. In an interactive kernel the message is shown in an
//! alert color and the processor halts; in a test kernel the message goes to
//! the serial line and the emulator exits with the verdict of the test. A
//! test that expects a panic turns the verdict around.

use crate::qemu::ExitCode;
use crate::vga::{_print, Color16, FrameBuffer, TextModeColor, VgaWriter};
use vstd::prelude::*;
use vstd::string::*;

verus! {

/// How the kernel ends after a panic.
#[derive(Clone, Copy, Debug, PartialEq, Eq, Structural)]
pub enum Terminal {
    /// The processor halts for good.
    Halt,
    /// The emulator exits with the code.
    Exit(ExitCode),
}

/// What a test kernel does about a panic: the text for the serial line, and
/// how the kernel ends.
#[derive(Debug, PartialEq, Eq)]
pub struct TestVerdict {
    pub report: String,
    pub terminal: Terminal,
}

/// The colors of a panic message on the screen.
pub open spec fn alert_color() -> TextModeColor {
    TextModeColor { foreground: Color16::LightRed, background: Color16::Black }
}

/// The serial text for a test that panicked with `panic_info`.
pub open spec fn failure_report(panic_info: Seq<char>) -> Seq<char> {
    "[failed]\n\n"@ + "Error: "@ + panic_info + "\n\n"@
}

/// The serial text for a test that panicked as it should.
pub open spec fn success_report() -> Seq<char> {
    "[ok]\n"@
}

/// Panic handler of the interactive kernel: shows `panic_info` in the alert
/// colors. The kernel then halts.
pub fn vga_panic_handler(writer: &mut VgaWriter, device: &mut FrameBuffer, panic_info: &str) -> (end:
    Terminal)
    ensures
        end == Terminal::Halt,
        final(writer)@ == old(writer)@.with_color(alert_color()).write(panic_info.spec_bytes()),
        final(writer)@.wf(),
        final(device).holds(final(writer)@.grid),
{
    writer.set_color_code(TextModeColor::new(Color16::LightRed, Color16::Black));
    _print(writer, device, panic_info);
    Terminal::Halt
}

/// Panic handler of a test kernel: the test has failed.
pub fn test_panic_handler(panic_info: &str) -> (verdict: TestVerdict)
    ensures
        verdict.report@ == failure_report(panic_info@),
        verdict.terminal == Terminal::Exit(ExitCode::Failed),
{
    let mut report = String::from_str("[failed]\n\n");
    report.append("Error: ");
    report.append(panic_info);
    report.append("\n\n");
    TestVerdict { report, terminal: Terminal::Exit(ExitCode::Failed) }
}

/// Panic handler of a test kernel whose test is meant to panic: the panic
/// is the success.
pub fn fail_test_panic_handler(_panic_info: &str) -> (verdict: TestVerdict)
    ensures
        verdict.report@ == success_report(),
        verdict.terminal == Terminal::Exit(ExitCode::Success),
{
    TestVerdict { report: String::from_str("[ok]\n"), terminal: Terminal::Exit(ExitCode::Success) }
}

} // verus!
