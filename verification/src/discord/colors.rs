//! Discord embed colors (decimal RGB values).
use vstd::prelude::*;

verus! {

pub const SUCCESS: u32 = 0x00D26A;

pub const FAILURE: u32 = 0xFF4B4B;

pub const INFO: u32 = 0x5865F2;

pub const WARNING: u32 = 0xFEE75C;

} // verus!
