//! The parser for the service data of a Bluetooth LE advertisement.

use super::entity::{
    BluetoothAdvertisementFrame, BluetoothAdvertisementFrameView, BLUETOOTH_MESSAGE_LEN,
    ODID_APP_CODE,
};
use crate::wire::{
    read_u8, rest_from, take, truncated, wrong_sentinel, yields_view, ParseError, ParseErrorKind,
    Parsed,
};
use vstd::prelude::*;

verus! {

/// The bytes of a whole advertisement: application code, counter, message.
pub const BLUETOOTH_FRAME_LEN: usize = 27;

/// What `parse_bluetooth_advertisement_frame` returns on `input`.
pub open spec fn spec_parse_bluetooth_advertisement_frame(input: Seq<u8>) -> Parsed<
    BluetoothAdvertisementFrameView,
> {
    if input.len() < 1 {
        Err(truncated(0))
    } else if input[0] != ODID_APP_CODE {
        Err(wrong_sentinel(0))
    } else if input.len() < 2 {
        Err(truncated(1))
    } else if input.len() < BLUETOOTH_FRAME_LEN {
        Err(truncated(2))
    } else {
        Ok(
            (
                input.subrange(BLUETOOTH_FRAME_LEN as int, input.len() as int),
                BluetoothAdvertisementFrameView {
                    app_code: input[0],
                    counter: input[1],
                    message: input.subrange(2, BLUETOOTH_FRAME_LEN as int),
                },
            ),
        )
    }
}

/// Parses the service data of an advertisement: the application code, which
/// must be `0x0D`, a counter, and the 25 bytes of one message.
pub fn parse_bluetooth_advertisement_frame(input: &[u8]) -> (r: Result<
    (&[u8], BluetoothAdvertisementFrame),
    ParseError,
>)
    ensures
        yields_view(r, spec_parse_bluetooth_advertisement_frame(input@)),
{
    let app_code = read_u8(input, 0)?;
    if app_code != ODID_APP_CODE {
        return Err(ParseError { kind: ParseErrorKind::WrongSentinel, offset: 0 });
    }
    let counter = read_u8(input, 1)?;
    let bytes = take(input, 2, BLUETOOTH_MESSAGE_LEN)?;
    let mut message = [0u8; 25];
    let mut i: usize = 0;
    while i < BLUETOOTH_MESSAGE_LEN
        invariant
            i <= BLUETOOTH_MESSAGE_LEN,
            bytes@.len() == BLUETOOTH_MESSAGE_LEN,
            forall|k: int| 0 <= k < i ==> message@[k] == bytes@[k],
        decreases BLUETOOTH_MESSAGE_LEN - i,
    {
        message[i] = bytes[i];
        i = i + 1;
    }
    assert(message@ =~= input@.subrange(2, BLUETOOTH_FRAME_LEN as int));
    Ok((rest_from(input, BLUETOOTH_FRAME_LEN), BluetoothAdvertisementFrame { app_code, counter, message }))
}

} // verus!
