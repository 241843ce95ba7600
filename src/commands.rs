//! Decisions of the build tool's commands, apart from the processes and
//! files they act on.

use vstd::prelude::*;

verus! {

/// Exit status of QEMU when the kernel reports success through the
/// debug-exit device.
pub const EXIT_QEMU_SUCCESS: i64 = (5 << 1) | 1;

/// Status taken for a QEMU process that was ended by a signal.
pub const EXIT_QEMU_SIGNAL: i64 = (4 << 1) | 1;

/// Options of the `build` command.
pub struct Build {
    pub debug: bool,
}

/// The `build` command: there is nothing to do, and it succeeds.
pub fn handle_build(build: Build) -> (r: i32)
    ensures
        r == 0,
{
    0
}

/// The exit code of the `runner` command for the way QEMU ended: 0 when
/// it exited with `EXIT_QEMU_SUCCESS`, 1 otherwise (a process ended by a
/// signal, with no status, counts as `EXIT_QEMU_SIGNAL`).
pub fn runner_exit_code(status: Option<i32>) -> (r: i32)
    ensures
        r == 0 <==> (status matches Some(c) && c == EXIT_QEMU_SUCCESS),
        r == 0 || r == 1,
{
    let code: i64 = match status {
        Some(c) => c as i64,
        None => EXIT_QEMU_SIGNAL,
    };
    assert(EXIT_QEMU_SUCCESS == 11 && EXIT_QEMU_SIGNAL == 9) by (bit_vector);
    if code == EXIT_QEMU_SUCCESS {
        0
    } else {
        1
    }
}

} // verus!
