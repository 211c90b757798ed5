//! The bytes exchanged with the game server.
//!
//! The client sends one byte per move, the column plus one, so that the byte `0`
//! stays free for the server to mark a participant that went away. The server
//! sends the local participant's identity once, as the ASCII digit `'1'` or `'2'`,
//! and then three-byte frames `[row, column, outcome]`.
use vstd::prelude::*;
use crate::grid::COLUMNS;

verus! {

/// The wire byte that carries the column choice `column`.
pub open spec fn wire_byte(column: int) -> int {
    column + 1
}

/// The column choice that the wire byte `byte` carries, if any.
pub open spec fn column_of_wire(byte: int) -> Option<int> {
    if 1 <= byte <= COLUMNS {
        Some(byte - 1)
    } else {
        None
    }
}

/// The participant number that the identity byte `byte` assigns, if any.
pub open spec fn identity_of(byte: int) -> Option<int> {
    if byte == '1' as int {
        Some(1)
    } else if byte == '2' as int {
        Some(2)
    } else {
        None
    }
}

/// A decoded placement: the cell at `row`, `column` now holds `outcome % 3`, and
/// an `outcome` above 2 says that participant `outcome - 3` won.
#[derive(Clone, Copy, Debug, PartialEq, Eq, Structural)]
pub struct Placement {
    pub row: u8,
    pub column: u8,
    pub outcome: u8,
}

/// Encodes a column choice as its wire byte.
pub fn encode_column(column: u8) -> (r: u8)
    requires
        column < COLUMNS,
    ensures
        r == wire_byte(column as int),
{
    column + 1
}

/// Recovers the column choice from a wire byte; `None` for the sentinel `0` and for
/// bytes past the last column.
pub fn decode_column(byte: u8) -> (r: Option<u8>)
    ensures
        r matches Some(c) ==> column_of_wire(byte as int) == Some(c as int),
        r is None ==> column_of_wire(byte as int) is None,
{
    if 1 <= byte && byte <= COLUMNS {
        Some(byte - 1)
    } else {
        None
    }
}

/// Decoding a move's wire byte gives back the column that was encoded.
pub proof fn lemma_column_round_trip(column: int)
    requires
        0 <= column < COLUMNS,
    ensures
        column_of_wire(wire_byte(column)) == Some(column),
{
}

/// Reads a three-byte server frame as a placement, without checking its bounds.
pub fn decode_frame(frame: [u8; 3]) -> (r: Placement)
    ensures
        r.row == frame@[0],
        r.column == frame@[1],
        r.outcome == frame@[2],
{
    Placement { row: frame[0], column: frame[1], outcome: frame[2] }
}

/// Reads the identity byte sent right after the connection is made.
pub fn decode_identity(byte: u8) -> (r: Option<u8>)
    ensures
        r matches Some(p) ==> identity_of(byte as int) == Some(p as int),
        r is None ==> identity_of(byte as int) is None,
{
    if byte == 0x31 {
        Some(1)
    } else if byte == 0x32 {
        Some(2)
    } else {
        None
    }
}

/// The inbound frame that hands participant number `player` to the presentation
/// loop: the number repeated three times.
pub fn identity_frame(player: u8) -> (r: [u8; 3])
    ensures
        r@ == seq![player, player, player],
{
    let r = [player, player, player];
    assert(r@ =~= seq![player, player, player]);
    r
}

} // verus!
