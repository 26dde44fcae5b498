//! Telling 802.11 frames apart by the first byte of their header.

use vstd::prelude::*;

verus! {

/// The first header byte of a beacon frame.
pub const BEACON_SUBTYPE: u8 = 0x80;

/// The first header byte of an action frame.
pub const ACTION_SUBTYPE: u8 = 0xd0;

/// The kinds of frame that the capture loop tells apart.
#[derive(Debug, Clone, Copy, PartialEq, Eq, Structural)]
pub enum FrameKind {
    Beacon,
    Action,
    Other,
}

/// The kind of the frame whose 802.11 header starts at `header_length`. A
/// frame that ends before its header starts is of no kind.
pub open spec fn frame_kind(input: Seq<u8>, header_length: int) -> FrameKind {
    if 0 <= header_length < input.len() && input[header_length] == BEACON_SUBTYPE {
        FrameKind::Beacon
    } else if 0 <= header_length < input.len() && input[header_length] == ACTION_SUBTYPE {
        FrameKind::Action
    } else {
        FrameKind::Other
    }
}

/// Tells the kind of the frame whose 802.11 header starts at `header_length`.
pub fn classify_frame(input: &[u8], header_length: u8) -> (kind: FrameKind)
    ensures
        kind == frame_kind(input@, header_length as int),
{
    let at = header_length as usize;
    if at >= input.len() {
        FrameKind::Other
    } else if input[at] == BEACON_SUBTYPE {
        FrameKind::Beacon
    } else if input[at] == ACTION_SUBTYPE {
        FrameKind::Action
    } else {
        FrameKind::Other
    }
}

/// Whether the frame whose 802.11 header starts at `header_length` is a
/// beacon frame.
pub fn is_beacon_frame(input: &[u8], header_length: u8) -> (r: bool)
    ensures
        r == (frame_kind(input@, header_length as int) == FrameKind::Beacon),
        r == (header_length < input@.len() && input@[header_length as int] == 0x80),
{
    let at = header_length as usize;
    at < input.len() && input[at] == BEACON_SUBTYPE
}

/// Whether the frame whose 802.11 header starts at `header_length` is an
/// action frame.
pub fn is_action_frame(input: &[u8], header_length: u8) -> (r: bool)
    ensures
        r == (frame_kind(input@, header_length as int) == FrameKind::Action),
        r == (header_length < input@.len() && input@[header_length as int] == 0xd0),
{
    let at = header_length as usize;
    at < input.len() && input[at] == ACTION_SUBTYPE
}

} // verus!
