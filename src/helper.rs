//! The bit-packed field codecs: a position with a direction in three bytes, and a
//! move between two cells in six.
use vstd::prelude::*;
use crate::input_message::{DecodeError, InputMessage};
use crate::move_data::MoveData;

verus! {

/// The x coordinate of a packed position: all of the first byte, then the top two bits of
/// the second.
pub open spec fn pos_x(b0: u8, b1: u8) -> u16 {
    ((b0 as u16) << 2u16) | ((b1 as u16) >> 6u16)
}

/// The y coordinate of a packed position: the low six bits of the second byte, then the
/// top four bits of the third.
pub open spec fn pos_y(b1: u8, b2: u8) -> u16 {
    (((b1 & 0x3F) as u16) << 4u16) | ((b2 as u16) >> 4u16)
}

/// The direction of a packed position: the low four bits of the third byte.
pub open spec fn pos_dir(b2: u8) -> u8 {
    b2 & 0x0F
}

/// The move that six packed bytes stand for; the sixth byte carries none of it.
pub open spec fn move_of(a: u8, b: u8, c: u8, d: u8, e: u8) -> MoveData {
    MoveData {
        from_x: (((a as u16) & 0xFF) << 2u16) | (((b as u16) & 0xC0) >> 6u16),
        from_y: (((b as u16) & 0x3F) << 4u16) | (((c as u16) & 0xF0) >> 4u16),
        to_x: (((d as u16) & 0xFC) >> 2u16) | (((c as u16) & 0x0F) << 6u16),
        to_y: (((d as u16) & 0x03) << 8u16) | (e as u16),
    }
}

/// Unpacks x, y and direction from three bytes.
pub fn decode_pos(b0: u8, b1: u8, b2: u8) -> (r: (u16, u16, u8))
    ensures
        r == (pos_x(b0, b1), pos_y(b1, b2), pos_dir(b2)),
{
    let x = ((b0 as u16) << 2u16) | ((b1 as u16) >> 6u16);
    let y = (((b1 & 0x3F) as u16) << 4u16) | ((b2 as u16) >> 4u16);
    let dir = b2 & 0x0F;
    (x, y, dir)
}

/// Reads a packed position: three bytes, or nothing when fewer remain.
pub fn read_pos(data: &mut InputMessage) -> (r: Result<(u16, u16, u8), DecodeError>)
    requires
        old(data).wf(),
    ensures
        final(data).wf(),
        final(data).bytes() == old(data).bytes(),
        match r {
            Ok(v) => old(data).has(3) && final(data).pos() == old(data).pos() + 3 && v == (
            pos_x(old(data).bytes()[old(data).pos()], old(data).bytes()[old(data).pos() + 1]),
            pos_y(old(data).bytes()[old(data).pos() + 1], old(data).bytes()[old(data).pos() + 2]),
            pos_dir(old(data).bytes()[old(data).pos() + 2]),
            ),
            Err(e) => !old(data).has(3) && e == DecodeError::OutOfBounds && final(data).pos()
                == old(data).pos(),
        },
{
    if data.remaining() < 3 {
        return Err(DecodeError::OutOfBounds);
    }
    let x_byte = data.read_u8().unwrap();
    let y_byte = data.read_u8().unwrap();
    let dir_byte = data.read_u8().unwrap();
    Ok(decode_pos(x_byte, y_byte, dir_byte))
}

/// Reads a packed move: six bytes, or nothing when fewer remain.
pub fn read_move_data(data: &mut InputMessage) -> (r: Result<MoveData, DecodeError>)
    requires
        old(data).wf(),
    ensures
        final(data).wf(),
        final(data).bytes() == old(data).bytes(),
        match r {
            Ok(m) => old(data).has(6) && final(data).pos() == old(data).pos() + 6 && m == move_of(
                old(data).bytes()[old(data).pos()],
                old(data).bytes()[old(data).pos() + 1],
                old(data).bytes()[old(data).pos() + 2],
                old(data).bytes()[old(data).pos() + 3],
                old(data).bytes()[old(data).pos() + 4],
            ),
            Err(e) => !old(data).has(6) && e == DecodeError::OutOfBounds && final(data).pos()
                == old(data).pos(),
        },
{
    if data.remaining() < 6 {
        return Err(DecodeError::OutOfBounds);
    }
    let a = data.read_u8().unwrap();
    let b = data.read_u8().unwrap();
    let c = data.read_u8().unwrap();
    let d = data.read_u8().unwrap();
    let e = data.read_u8().unwrap();
    let _f = data.read_u8().unwrap();
    let x0 = (((a as u16) & 0xFF) << 2u16) | (((b as u16) & 0xC0) >> 6u16);
    let y0 = (((b as u16) & 0x3F) << 4u16) | (((c as u16) & 0xF0) >> 4u16);
    let x1 = (((d as u16) & 0xFC) >> 2u16) | (((c as u16) & 0x0F) << 6u16);
    let y1 = (((d as u16) & 0x03) << 8u16) | (e as u16);
    Ok(MoveData::new(x0, y0, x1, y1))
}

} // verus!
