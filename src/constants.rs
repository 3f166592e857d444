use vstd::prelude::*;

use crate::Byte;

verus! {

/// High byte of every zero-page address.
pub const ZP: Byte = 0x00;

/// High byte of every stack address: the stack lives in page one.
pub const SP: Byte = 0x01;

} // verus!
