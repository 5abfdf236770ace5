use vstd::prelude::*;

verus! {

/// The cell alphabet: the seven tetromino shapes plus `E`, the empty marker.
/// `E` stands for "no block"; it is never a valid shape to spawn or hold.
#[derive(Clone, Copy, Debug, PartialEq, Eq, Structural)]
pub enum TetrominoType {
    E,
    I,
    L,
    J,
    O,
    Z,
    S,
    T,
}

impl TetrominoType {
    /// Numeric decoding of the shape alphabet: codes 1 through 7 name the
    /// seven shapes, every other code decodes to the empty marker.
    pub open spec fn spec_from_u8(value: u8) -> TetrominoType {
        match value {
            1 => TetrominoType::I,
            2 => TetrominoType::L,
            3 => TetrominoType::J,
            4 => TetrominoType::O,
            5 => TetrominoType::Z,
            6 => TetrominoType::S,
            7 => TetrominoType::T,
            _ => TetrominoType::E,
        }
    }

    pub fn from_u8(value: u8) -> (t: TetrominoType)
        ensures
            t == TetrominoType::spec_from_u8(value),
    {
        match value {
            1 => TetrominoType::I,
            2 => TetrominoType::L,
            3 => TetrominoType::J,
            4 => TetrominoType::O,
            5 => TetrominoType::Z,
            6 => TetrominoType::S,
            7 => TetrominoType::T,
            _ => TetrominoType::E,
        }
    }
}

} // verus!
