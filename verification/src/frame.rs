//! The fixed 4-byte protocol frame read from the device stream.

use vstd::prelude::*;

verus! {

/// Opcode of a chat-mix signal: the dial reports the desired volume of the
/// "Game" channel in `field_a` and of the "Chat" channel in `field_b`.
pub const CHATMIX: u8 = 69;

/// Opcode of a headset power event: `field_a` carries the power sub-state.
pub const HEADSET_POWER: u8 = 185;

/// Power sub-state meaning the headset is powering off.
pub const POWER_OFF: u8 = 2;

/// Power sub-state meaning the headset is powering on.
pub const POWER_ON: u8 = 3;

/// One protocol frame: a fixed-size 4-byte record read atomically from the
/// device stream.  `reserved` is unused payload; it is never validated,
/// except by discovery, which uses it to recognise the dial's signature.
#[derive(Clone, Copy, PartialEq, Eq, Structural, Debug)]
pub struct Frame {
    pub opcode: u8,
    pub field_a: u8,
    pub field_b: u8,
    pub reserved: u8,
}

/// The dial's characteristic signature: a chat-mix frame whose trailing byte
/// is zero.  The trailing zero distinguishes the mix dial from the other
/// interfaces the same hardware exposes.
pub open spec fn is_signature_frame(f: Frame) -> bool {
    f.opcode == CHATMIX && f.reserved == 0
}

impl Frame {
    /// Decodes one 4-byte record into a frame, positionally.
    pub fn from_bytes(bytes: [u8; 4]) -> (f: Frame)
        ensures
            f.opcode == bytes[0],
            f.field_a == bytes[1],
            f.field_b == bytes[2],
            f.reserved == bytes[3],
    {
        Frame { opcode: bytes[0], field_a: bytes[1], field_b: bytes[2], reserved: bytes[3] }
    }

    /// Whether this frame is the dial's signature frame, the pattern that
    /// discovery and selector validation look for.
    pub fn is_signature(&self) -> (r: bool)
        ensures
            r == is_signature_frame(*self),
    {
        self.opcode == CHATMIX && self.reserved == 0
    }
}

} // verus!
