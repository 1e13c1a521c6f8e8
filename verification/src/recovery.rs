//! The crash-recovery flag: a single persisted boolean recording
//! whether the host was live. The byte written and the meaning of what
//! is read back are fixed here; the flag file itself is handled by the
//! process around the library, which writes the live mark periodically
//! and inspects it on startup.

use vstd::prelude::*;

verus! {

/// Byte stored in the flag file for the given liveness value.
pub fn flag_byte(value: bool) -> (r: u8)
    ensures
        r == (if value {
            1u8
        } else {
            0u8
        }),
{
    if value {
        1
    } else {
        0
    }
}

/// Interpret what was read back from the flag file: an empty file
/// records nothing, and otherwise only the byte one means the host was
/// still live — so a set flag at startup means the previous run did
/// not terminate gracefully.
pub fn parse_flag(file_len: u64, first_byte: u8) -> (r: bool)
    ensures
        r == (file_len > 0 && first_byte == 1),
{
    file_len > 0 && first_byte == 1
}

} // verus!
