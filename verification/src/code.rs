//! What the scanner reports of one QR symbol: where it lies in the image and what
//! became of decoding it.

use vstd::prelude::*;
use vstd::string::*;

verus! {

/// The most bytes a decoded payload can hold.
pub const QUIRC_MAX_PAYLOAD: usize = 8896;

/// A position in the image, in pixels.
#[derive(Debug, Clone, Copy, PartialEq, Eq, Structural)]
pub struct QuircPoint {
    pub x: i32,
    pub y: i32,
}

/// A symbol that the scanner has located: its four corners in drawing order and the
/// number of cells along one side.
#[derive(Debug, Clone, Copy)]
pub struct QuircCode {
    pub corners: [QuircPoint; 4],
    pub size: i32,
}

/// The symbol as the library names it in signatures.
pub type Code = QuircCode;

/// A quarter of `sum`, rounded towards zero.
pub open spec fn quarter(sum: int) -> int {
    if sum >= 0 {
        sum / 4
    } else {
        -((-sum) / 4)
    }
}

impl QuircCode {
    /// The sum of the four corners' horizontal positions.
    pub open spec fn sum_x(&self) -> int {
        self.corners[0].x + self.corners[1].x + self.corners[2].x + self.corners[3].x
    }

    /// The sum of the four corners' vertical positions.
    pub open spec fn sum_y(&self) -> int {
        self.corners[0].y + self.corners[1].y + self.corners[2].y + self.corners[3].y
    }

    /// The centre of the symbol: the average of the four corners in each coordinate,
    /// rounded towards zero.
    pub fn centroid(&self) -> (c: QuircPoint)
        ensures
            c.x == quarter(self.sum_x()),
            c.y == quarter(self.sum_y()),
    {
        let sx: i64 = self.corners[0].x as i64 + self.corners[1].x as i64 + self.corners[2].x as i64
            + self.corners[3].x as i64;
        let sy: i64 = self.corners[0].y as i64 + self.corners[1].y as i64 + self.corners[2].y as i64
            + self.corners[3].y as i64;
        QuircPoint { x: (sx / 4) as i32, y: (sy / 4) as i32 }
    }
}

/// The centre of a symbol lies between its corners: a range that holds all four
/// corners in a coordinate holds the centre in that coordinate too.
pub proof fn lemma_centroid_between_corners(code: QuircCode, low: QuircPoint, high: QuircPoint)
    requires
        forall|j: int| 0 <= j < 4 ==> low.x <= (#[trigger] code.corners[j]).x <= high.x,
        forall|j: int| 0 <= j < 4 ==> low.y <= (#[trigger] code.corners[j]).y <= high.y,
    ensures
        low.x <= quarter(code.sum_x()) <= high.x,
        low.y <= quarter(code.sum_y()) <= high.y,
{
    assert(low.x <= code.corners[0].x <= high.x && low.y <= code.corners[0].y <= high.y);
    assert(low.x <= code.corners[1].x <= high.x && low.y <= code.corners[1].y <= high.y);
    assert(low.x <= code.corners[2].x <= high.x && low.y <= code.corners[2].y <= high.y);
    assert(low.x <= code.corners[3].x <= high.x && low.y <= code.corners[3].y <= high.y);
}

/// How decoding a located symbol ended.
#[derive(Debug, Clone, Copy, PartialEq, Eq, Structural)]
pub enum DecodeError {
    /// The symbol was decoded.
    Success,
    /// The grid of cells has a size that no symbol has.
    InvalidGridSize,
    /// The symbol's version is none that is known.
    InvalidVersion,
    /// The format information could not be corrected.
    FormatEcc,
    /// The data could not be corrected.
    DataEcc,
    /// The data is of a type that is not known.
    UnknownDataType,
    /// The data is longer than a payload can be.
    DataOverflow,
    /// The data ends before it is complete.
    DataUnderflow,
}

impl DecodeError {
    /// The number that the scanner uses for this outcome.
    pub open spec fn code_spec(self) -> u8 {
        match self {
            DecodeError::Success => 0,
            DecodeError::InvalidGridSize => 1,
            DecodeError::InvalidVersion => 2,
            DecodeError::FormatEcc => 3,
            DecodeError::DataEcc => 4,
            DecodeError::UnknownDataType => 5,
            DecodeError::DataOverflow => 6,
            DecodeError::DataUnderflow => 7,
        }
    }

    /// The number that the scanner uses for this outcome.
    pub fn code(&self) -> (c: u8)
        ensures
            c == self.code_spec(),
    {
        match self {
            DecodeError::Success => 0,
            DecodeError::InvalidGridSize => 1,
            DecodeError::InvalidVersion => 2,
            DecodeError::FormatEcc => 3,
            DecodeError::DataEcc => 4,
            DecodeError::UnknownDataType => 5,
            DecodeError::DataOverflow => 6,
            DecodeError::DataUnderflow => 7,
        }
    }

    /// The outcome that the scanner numbers `value`, if there is one.
    pub fn from_u8(value: u8) -> (r: Option<DecodeError>)
        ensures
            r is Some <==> value <= 7,
            r matches Some(e) ==> e.code_spec() == value,
    {
        match value {
            0 => Some(DecodeError::Success),
            1 => Some(DecodeError::InvalidGridSize),
            2 => Some(DecodeError::InvalidVersion),
            3 => Some(DecodeError::FormatEcc),
            4 => Some(DecodeError::DataEcc),
            5 => Some(DecodeError::UnknownDataType),
            6 => Some(DecodeError::DataOverflow),
            7 => Some(DecodeError::DataUnderflow),
            _ => None,
        }
    }

    /// Tells success from failure: `Ok` for `Success`, and the outcome itself as the
    /// error for every other one.
    pub fn check(self) -> (r: Result<(), DecodeError>)
        ensures
            self == DecodeError::Success ==> r is Ok,
            self != DecodeError::Success ==> r == Err::<(), DecodeError>(self),
    {
        match self {
            DecodeError::Success => Ok(()),
            other => Err(other),
        }
    }
}

/// Two outcomes with the same number are the same outcome.
pub proof fn lemma_code_is_injective(a: DecodeError, b: DecodeError)
    requires
        a.code_spec() == b.code_spec(),
    ensures
        a == b,
{
}

/// The length of `text` in bytes once it is encoded as UTF-8.
pub open spec fn byte_len(text: Seq<char>) -> nat {
    vstd::utf8::encode_utf8(text).len()
}

/// What a symbol held: its version, error-correction level, mask and data type, and
/// the payload as text of at most `QUIRC_MAX_PAYLOAD` bytes.
#[derive(Debug)]
pub struct QuircData {
    version: i32,
    ecc_level: i32,
    mask: i32,
    data_type: i32,
    payload: String,
}

/// The decoded data as the library names it in signatures.
pub type Data = QuircData;

impl QuircData {
    #[verifier::type_invariant]
    spec fn well_formed(self) -> bool {
        byte_len(self.payload@) <= QUIRC_MAX_PAYLOAD
    }

    /// The symbol's version.
    pub closed spec fn version_spec(&self) -> i32 {
        self.version
    }

    /// The symbol's error-correction level.
    pub closed spec fn ecc_level_spec(&self) -> i32 {
        self.ecc_level
    }

    /// The symbol's mask pattern.
    pub closed spec fn mask_spec(&self) -> i32 {
        self.mask
    }

    /// The symbol's data type.
    pub closed spec fn data_type_spec(&self) -> i32 {
        self.data_type
    }

    /// The payload as a sequence of characters.
    pub closed spec fn text(&self) -> Seq<char> {
        self.payload@
    }

    /// Puts decoded data together. A payload of more than `QUIRC_MAX_PAYLOAD` bytes
    /// is not one that a symbol can hold, and gives `None`.
    pub fn new(version: i32, ecc_level: i32, mask: i32, data_type: i32, payload: String) -> (r:
        Option<QuircData>)
        ensures
            r is Some <==> byte_len(payload@) <= QUIRC_MAX_PAYLOAD,
            r matches Some(d) ==> {
                &&& d.version_spec() == version
                &&& d.ecc_level_spec() == ecc_level
                &&& d.mask_spec() == mask
                &&& d.data_type_spec() == data_type
                &&& d.text() == payload@
            },
    {
        if payload.as_str().as_bytes().len() <= QUIRC_MAX_PAYLOAD {
            Some(QuircData { version, ecc_level, mask, data_type, payload })
        } else {
            None
        }
    }

    /// The symbol's version.
    pub fn version(&self) -> (r: i32)
        ensures
            r == self.version_spec(),
    {
        self.version
    }

    /// The symbol's error-correction level.
    pub fn ecc_level(&self) -> (r: i32)
        ensures
            r == self.ecc_level_spec(),
    {
        self.ecc_level
    }

    /// The symbol's mask pattern.
    pub fn mask(&self) -> (r: i32)
        ensures
            r == self.mask_spec(),
    {
        self.mask
    }

    /// The symbol's data type.
    pub fn data_type(&self) -> (r: i32)
        ensures
            r == self.data_type_spec(),
    {
        self.data_type
    }

    /// The payload.
    pub fn payload(&self) -> (r: &str)
        ensures
            r@ == self.text(),
            byte_len(r@) <= QUIRC_MAX_PAYLOAD,
    {
        proof {
            use_type_invariant(self);
        }
        self.payload.as_str()
    }

    /// The payload's length in bytes.
    pub fn payload_len(&self) -> (r: usize)
        ensures
            r == byte_len(self.text()),
            r <= QUIRC_MAX_PAYLOAD,
    {
        proof {
            use_type_invariant(self);
        }
        self.payload.as_str().as_bytes().len()
    }
}

/// Why a located symbol could not be decoded: the outcome, and the scanner's words
/// for it.
#[derive(Debug)]
pub struct DecodeFailure {
    pub kind: DecodeError,
    pub message: String,
}

/// One symbol of a frame: where it lies, and what decoding it gave.
#[derive(Debug)]
pub struct Detected {
    pub code: QuircCode,
    pub decoded: Result<QuircData, DecodeFailure>,
}

} // verus!
