//! A text-mode console driver for a memory-mapped 25x80 character display.
//!
//! The heart of the crate is [`vga_buffer::Writer`]: a cursor- and
//! attribute-carrying writer over a fixed grid of two-byte character cells.
//! Every byte written lands in the bottom row; full lines and newline bytes
//! scroll the grid up by one row. All cell traffic goes through an ordered
//! (volatile) load/store seam in [`ordered`], so a hardware observer sees
//! every write in program order. The abstract state of the grid and the
//! exact effect of each operation are spelled out in [`model`].

use vstd::prelude::*;

pub mod color;
pub mod model;
pub mod ordered;
pub mod vga_buffer;

verus! {

/// Status code reported to the emulator's debug-exit device when a test run
/// ends. The two codes are chosen so that neither collides with the
/// emulator's own exit statuses once shifted into a process exit code.
#[derive(Debug, Clone, Copy, PartialEq, Eq, Structural)]
pub enum QemuExitCode {
    Success,
    Failed,
}

impl QemuExitCode {
    /// The 32-bit value the device expects for this status.
    pub open spec fn spec_code(self) -> u32 {
        match self {
            QemuExitCode::Success => 0x10,
            QemuExitCode::Failed => 0x11,
        }
    }

    /// The 32-bit value the device expects for this status.
    pub fn code(self) -> (c: u32)
        ensures
            c == self.spec_code(),
    {
        match self {
            QemuExitCode::Success => 0x10,
            QemuExitCode::Failed => 0x11,
        }
    }
}

} // verus!
