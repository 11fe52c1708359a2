//! Exit protocol of the emulator's debug-exit device.
//!
//! A test run ends by writing one 32-bit value to the device's port. The
//! emulator then terminates with a status derived from that value, and the
//! test driver maps the status back to a verdict.

use vstd::prelude::*;

verus! {

/// I/O port of the debug-exit device.
pub const EXIT_PORT: u16 = 0xf4;

/// Value written to the exit port for a passed test.
pub const SUCCESS_VALUE: u32 = 0x10;

/// Value written to the exit port for a failed test.
pub const FAILED_VALUE: u32 = 0x11;

/// Verdict of a test run.
#[derive(Clone, Copy, Debug, PartialEq, Eq, Structural)]
pub enum ExitCode {
    Success,
    Failed,
}

/// The value that `code` puts on the exit port.
pub open spec fn port_value(code: ExitCode) -> u32 {
    match code {
        ExitCode::Success => SUCCESS_VALUE,
        ExitCode::Failed => FAILED_VALUE,
    }
}

/// The process status with which the emulator ends after `value` was
/// written to the exit port: the value shifted left by one, with the lowest
/// bit set.
pub open spec fn host_status(value: u32) -> int {
    2 * (value as int) + 1
}

impl ExitCode {
    /// The value to write to [`EXIT_PORT`].
    pub fn value(self) -> (v: u32)
        ensures
            v == port_value(self),
    {
        match self {
            ExitCode::Success => SUCCESS_VALUE,
            ExitCode::Failed => FAILED_VALUE,
        }
    }

    /// The status that the test driver observes once the value of `self`
    /// has reached the exit port.
    pub fn status(self) -> (s: u32)
        ensures
            s == host_status(port_value(self)),
            s == (port_value(self) << 1) | 1,
    {
        let v: u32 = self.value();
        assert((v << 1) | 1 == 2 * v + 1) by (bit_vector)
            requires
                v == 0x10u32 || v == 0x11u32,
        ;
        (v << 1) | 1
    }

    /// Reads a verdict back from the status of the emulator's process.
    pub fn from_status(status: u32) -> (code: Option<ExitCode>)
        ensures
            code matches Some(c) ==> host_status(port_value(c)) == status,
            code is None ==> forall|c: ExitCode| host_status(port_value(c)) != status,
    {
        if status == 33 {
            Some(ExitCode::Success)
        } else if status == 35 {
            Some(ExitCode::Failed)
        } else {
            None
        }
    }
}

/// The two verdicts never share a status: the driver can always tell a
/// passed run from a failed one.
pub proof fn lemma_statuses_distinct(a: ExitCode, b: ExitCode)
    ensures
        host_status(port_value(a)) == host_status(port_value(b)) <==> a == b,
{
}

} // verus!
