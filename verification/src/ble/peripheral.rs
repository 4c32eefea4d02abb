//! What the half that talks to the host makes of the messages of the other
//! half: the positions of its keys and its battery level.

use crate::ble::services::MESSAGE_EMPTY;
use crate::config::{COLS, MATRIX_KEYS_BUFFER};
use crate::key_provision::packed_position;
use crate::matrix::KeyPos;
use vstd::prelude::*;

verus! {

/// The position that a byte of a relay message stands for: the row from the
/// high four bits, the column from the low four bits, moved past the columns
/// of this half. The byte 255 stands for no key.
pub open spec fn decoded_position(byte: u8) -> KeyPos {
    if byte != MESSAGE_EMPTY {
        KeyPos { row: byte >> 4, col: ((byte & 0x0f) + COLS) as u8 }
    } else {
        KeyPos::sentinel()
    }
}

/// The positions of the other half after a relay message has come in: byte
/// `i` of the message sets position `i`. A position for which the message has
/// no byte stays, and so does every position where the message is longer than
/// the buffer.
pub open spec fn split_keys_after(before: Seq<KeyPos>, data: Seq<u8>) -> Seq<KeyPos> {
    Seq::new(
        before.len(),
        |i: int|
            if i < data.len() {
                decoded_position(data[i])
            } else {
                before[i]
            },
    )
}

/// The lowest of `level` and the first `n` bytes of `data`.
pub open spec fn lowest_level(level: u8, data: Seq<u8>, n: int) -> u8
    decreases n,
{
    if n <= 0 {
        level
    } else if data[n - 1] < lowest_level(level, data, n - 1) {
        data[n - 1]
    } else {
        lowest_level(level, data, n - 1)
    }
}

/// Returns the position that a byte of a relay message stands for.
pub fn decode_position(byte: u8) -> (position: KeyPos)
    ensures
        position == decoded_position(byte),
{
    if byte != MESSAGE_EMPTY {
        assert(byte & 0x0f <= 15) by (bit_vector);
        KeyPos { row: byte >> 4, col: (byte & 0x0f) + COLS as u8 }
    } else {
        KeyPos::default()
    }
}

/// Takes a relay message into the positions of the other half.
pub fn split_keys_received(
    matrix_keys_split_local: &mut [KeyPos; MATRIX_KEYS_BUFFER],
    central_data: &[u8],
)
    ensures
        final(matrix_keys_split_local)@ == split_keys_after(
            old(matrix_keys_split_local)@,
            central_data@,
        ),
{
    let mut index: usize = 0;
    while index < MATRIX_KEYS_BUFFER && index < central_data.len()
        invariant
            index <= MATRIX_KEYS_BUFFER,
            index <= central_data@.len(),
            forall|i: int|
                0 <= i < index ==> matrix_keys_split_local@[i] == decoded_position(
                    central_data@[i],
                ),
            forall|i: int|
                index <= i < MATRIX_KEYS_BUFFER ==> matrix_keys_split_local@[i] == old(
                    matrix_keys_split_local,
                )@[i],
        decreases MATRIX_KEYS_BUFFER - index,
    {
        matrix_keys_split_local[index] = decode_position(central_data[index]);
        index += 1;
    }
    assert(matrix_keys_split_local@ =~= split_keys_after(
        old(matrix_keys_split_local)@,
        central_data@,
    ));
}

/// Takes the battery level of the other half: the keyboard shows the lower
/// level of its two halves. Returns the level to show where a byte of the
/// message lies below the level shown now, and `None` where none does or no
/// level is shown yet.
pub fn split_battery_received(current: Option<u8>, split_battery_level: &[u8]) -> (send: Option<u8>)
    ensures
        match current {
            Some(level) => {
                let lowest = lowest_level(
                    level,
                    split_battery_level@,
                    split_battery_level@.len() as int,
                );
                if lowest < level {
                    send == Some(lowest)
                } else {
                    send == None::<u8>
                }
            },
            None => send == None::<u8>,
        },
{
    match current {
        Some(level) => {
            let mut lowest = level;
            let mut index: usize = 0;
            while index < split_battery_level.len()
                invariant
                    index <= split_battery_level@.len(),
                    lowest == lowest_level(level, split_battery_level@, index as int),
                decreases split_battery_level@.len() - index,
            {
                if split_battery_level[index] < lowest {
                    lowest = split_battery_level[index];
                }
                index += 1;
            }
            if lowest < level {
                Some(lowest)
            } else {
                None
            }
        },
        None => None,
    }
}

/// The lowest level is not above the level it starts from nor above any byte
/// of the message, and it is one of them.
pub proof fn lemma_lowest_level(level: u8, data: Seq<u8>, n: int)
    requires
        0 <= n <= data.len(),
    ensures
        lowest_level(level, data, n) <= level,
        forall|i: int| 0 <= i < n ==> lowest_level(level, data, n) <= data[i],
        lowest_level(level, data, n) == level || exists|i: int|
            0 <= i < n && lowest_level(level, data, n) == data[i],
    decreases n,
{
    if n > 0 {
        lemma_lowest_level(level, data, n - 1);
        if lowest_level(level, data, n) != level {
            if data[n - 1] < lowest_level(level, data, n - 1) {
                assert(lowest_level(level, data, n) == data[n - 1]);
            } else {
                let i = choose|i: int|
                    0 <= i < n - 1 && lowest_level(level, data, n - 1) == data[i];
                assert(lowest_level(level, data, n) == data[i]);
            }
        }
    }
}

/// A decoded position lies in the columns of the other half: it is no
/// position of this half, whose columns end where those begin.
pub proof fn lemma_decoded_is_remote(byte: u8)
    requires
        byte != MESSAGE_EMPTY,
    ensures
        decoded_position(byte).col >= COLS,
        decoded_position(byte).col < COLS + 16,
        decoded_position(byte).row < 16,
        decoded_position(byte) != KeyPos::sentinel(),
{
    assert(byte & 0x0f <= 15) by (bit_vector);
    assert(byte >> 4 <= 15) by (bit_vector);
}

/// What one half packs, the other half reads in the same row, `COLS` columns
/// to the right: this holds of every position whose row and column fit in
/// four bits, but for row 15 with column 15, whose byte marks a free slot.
pub proof fn lemma_pack_decode(position: KeyPos)
    requires
        position.row < 16,
        position.col < 16,
        !(position.row == 15 && position.col == 15),
    ensures
        packed_position(position) != MESSAGE_EMPTY,
        decoded_position(packed_position(position)) == (KeyPos {
            row: position.row,
            col: (position.col + COLS) as u8,
        }),
{
    let row = position.row;
    let col = position.col;
    assert(row < 16 && col < 16 && !(row == 15 && col == 15) ==> ((row << 4) | col) != 255u8
        && ((row << 4) | col) >> 4 == row && ((row << 4) | col) & 0x0f == col) by (bit_vector);
}

/// The two halves share no position: what is decoded from a relay message is
/// never a position of this half.
pub proof fn lemma_remote_is_not_local(byte: u8, local: KeyPos)
    requires
        byte != MESSAGE_EMPTY,
        local.col < COLS,
    ensures
        decoded_position(byte) != local,
{
    lemma_decoded_is_remote(byte);
}

} // verus!
