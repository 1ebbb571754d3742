//! Program start and panics: the exit code a program reports, and the
//! status with which a panicking tasklet exits.
use vstd::prelude::*;
use crate::process::ExitCode;

verus! {

/// The exit code of a program whose main function panicked.
pub const PANIC_EXIT_CODE: i32 = 101;

/// The exit status with which the panic handler ends a tasklet.
pub const PANIC_EXIT_STATUS: i32 = -1;

/// The value that starting a program returns: the code that its main
/// function reported, or 101 when it panicked (`None`).
pub fn lang_start_code(outcome: Option<ExitCode>) -> (r: isize)
    ensures
        r == match outcome {
            Some(c) => c.value() as int,
            None => PANIC_EXIT_CODE as int,
        },
{
    let code = match outcome {
        Some(c) => c,
        None => ExitCode::from_raw(PANIC_EXIT_CODE),
    };
    code.as_i32() as isize
}

/// Installs the panic hook; TantraOS needs none yet.
pub fn set_panic_hook() {
}

} // verus!
