//! The checkpoint encoding of a trajectory: a fixed binary layout, carried as
//! base64 text.

use crate::trajectory::{byte_of, Trajectory, Vector};
use base64::engine::general_purpose::STANDARD;
use base64::Engine;
use vstd::bytes::{
    spec_u32_from_le_bytes, spec_u32_to_le_bytes, spec_u64_from_le_bytes, spec_u64_to_le_bytes,
};
use vstd::prelude::*;

verus! {

/// Length in bytes of the binary layout.
pub const WIRE_LEN: usize = 32;

/// Why a checkpoint could not be read.
#[derive(Clone, Copy, Debug, PartialEq, Eq, Structural)]
pub enum CheckpointError {
    /// The text is not base64.
    BadText,
    /// The bytes are too few, or the first is neither 0 nor 1.
    BadLayout,
}

/// The error of `bincode::deserialize`.  Only its presence is looked at.
#[verifier::external_type_specification]
#[verifier::external_body]
pub struct ExBincodeErrorKind(bincode::ErrorKind);

/// The error of `base64`'s `Engine::decode`.  Only its presence is looked at.
#[verifier::external_type_specification]
#[verifier::external_body]
pub struct ExBase64DecodeError(base64::DecodeError);

/// The binary layout: the fields in declaration order, a flag as one byte,
/// numbers in little-endian order at their full width.
pub open spec fn wire_image(t: Trajectory) -> Seq<u8> {
    seq![if t.propelling { 1u8 } else { 0u8 }]
        + spec_u32_to_le_bytes(t.pos.x)
        + spec_u32_to_le_bytes(t.pos.y)
        + spec_u32_to_le_bytes(t.vel.x)
        + spec_u32_to_le_bytes(t.vel.y)
        + spec_u32_to_le_bytes(t.spin)
        + seq![byte_of(t.spin_direction)]
        + spec_u64_to_le_bytes(t.time)
        + seq![t.health, t.boosters]
}

/// Whether bytes start with a binary layout.  What follows it is ignored.
pub open spec fn well_framed(bytes: Seq<u8>) -> bool {
    bytes.len() >= WIRE_LEN && bytes[0] <= 1
}

/// The signed byte that a byte stands for.
pub open spec fn signed_of(b: u8) -> i8 {
    if b < 128 {
        b as i8
    } else {
        (b - 256) as i8
    }
}

/// The trajectory that well-framed bytes hold.
pub open spec fn parsed(bytes: Seq<u8>) -> Trajectory {
    Trajectory {
        propelling: bytes[0] == 1,
        pos: Vector {
            x: spec_u32_from_le_bytes(bytes.subrange(1, 5)),
            y: spec_u32_from_le_bytes(bytes.subrange(5, 9)),
        },
        vel: Vector {
            x: spec_u32_from_le_bytes(bytes.subrange(9, 13)),
            y: spec_u32_from_le_bytes(bytes.subrange(13, 17)),
        },
        spin: spec_u32_from_le_bytes(bytes.subrange(17, 21)),
        spin_direction: signed_of(bytes[21]),
        time: spec_u64_from_le_bytes(bytes.subrange(22, 30)),
        health: bytes[30],
        boosters: bytes[31],
    }
}

/// What `base64`'s standard engine, with padding, makes of bytes.
pub uninterp spec fn base64_text(bytes: Seq<u8>) -> Seq<char>;

/// What `base64`'s standard engine reads from a text, if it reads anything.
pub uninterp spec fn base64_bytes(text: Seq<char>) -> Option<Seq<u8>>;

/// Calls `bincode::serialize` on the fields of a trajectory, in declaration
/// order, position and velocity as pairs.  Its standard configuration writes
/// fixed-width little-endian numbers and one byte per flag, without any
/// framing, sets no size limit, and writing into a vector does not fail.
#[verifier::external_body]
fn bincode_serialize(t: &Trajectory) -> (bytes: Vec<u8>)
    ensures
        bytes@ == wire_image(*t),
{
    let fields = (
        t.propelling,
        (t.pos.x, t.pos.y),
        (t.vel.x, t.vel.y),
        t.spin,
        t.spin_direction,
        t.time,
        t.health,
        t.boosters,
    );
    bincode::serialize(&fields).unwrap()
}

/// Calls `bincode::deserialize` for the fields of a trajectory.  Its standard
/// configuration reads the layout that `bincode::serialize` writes, accepts
/// bytes after it, and fails where the bytes run out or a flag is neither 0
/// nor 1.
#[verifier::external_body]
fn bincode_deserialize(bytes: &Vec<u8>) -> (r: Result<Trajectory, Box<bincode::ErrorKind>>)
    ensures
        r is Ok <==> well_framed(bytes@),
        r matches Ok(t) ==> t == parsed(bytes@),
{
    let fields: (bool, (u32, u32), (u32, u32), u32, i8, u64, u8, u8) = bincode::deserialize(bytes)?;
    Ok(Trajectory {
        propelling: fields.0,
        pos: Vector { x: fields.1.0, y: fields.1.1 },
        vel: Vector { x: fields.2.0, y: fields.2.1 },
        spin: fields.3,
        spin_direction: fields.4,
        time: fields.5,
        health: fields.6,
        boosters: fields.7,
    })
}

/// Calls `Engine::encode` on `base64`'s standard engine.  The text it gives
/// is one that `Engine::decode` reads back as the same bytes.
#[verifier::external_body]
fn base64_encode(bytes: &Vec<u8>) -> (text: String)
    requires
        bytes.len() <= 0x4000_0000,
    ensures
        text@ == base64_text(bytes@),
        base64_bytes(text@) == Some(bytes@),
{
    STANDARD.encode(bytes)
}

/// Calls `Engine::decode` on `base64`'s standard engine.
#[verifier::external_body]
fn base64_decode(text: &String) -> (r: Result<Vec<u8>, base64::DecodeError>)
    ensures
        match r {
            Ok(bytes) => base64_bytes(text@) == Some(bytes@),
            Err(_) => base64_bytes(text@) is None,
        },
{
    STANDARD.decode(text)
}

impl Trajectory {
    /// The checkpoint text of the trajectory.
    pub open spec fn b64_text(self) -> Seq<char> {
        base64_text(wire_image(self))
    }

    /// The binary layout of the trajectory.
    pub fn to_bytes(&self) -> (bytes: Vec<u8>)
        ensures
            bytes@ == wire_image(*self),
    {
        bincode_serialize(self)
    }

    /// Reads a trajectory from the start of `bytes`.
    pub fn from_bytes(bytes: &Vec<u8>) -> (r: Result<Trajectory, CheckpointError>)
        ensures
            r == if well_framed(bytes@) {
                Ok::<Trajectory, CheckpointError>(parsed(bytes@))
            } else {
                Err::<Trajectory, CheckpointError>(CheckpointError::BadLayout)
            },
    {
        match bincode_deserialize(bytes) {
            Ok(t) => Ok(t),
            Err(_) => Err(CheckpointError::BadLayout),
        }
    }

    /// The checkpoint encoding: the binary layout as base64 text.
    pub fn to_b64(&self) -> (text: String)
        ensures
            text@ == self.b64_text(),
            base64_bytes(text@) == Some(wire_image(*self)),
    {
        let bytes = self.to_bytes();
        proof {
            lemma_wire_image_len(*self);
        }
        base64_encode(&bytes)
    }

    /// Reads a checkpoint text.
    pub fn from_b64(data: String) -> (r: Result<Trajectory, CheckpointError>)
        ensures
            r == match base64_bytes(data@) {
                None => Err::<Trajectory, CheckpointError>(CheckpointError::BadText),
                Some(bytes) => if well_framed(bytes) {
                    Ok::<Trajectory, CheckpointError>(parsed(bytes))
                } else {
                    Err::<Trajectory, CheckpointError>(CheckpointError::BadLayout)
                },
            },
    {
        match base64_decode(&data) {
            Ok(bytes) => Trajectory::from_bytes(&bytes),
            Err(_) => Err(CheckpointError::BadText),
        }
    }
}

/// The binary layout always has the same length.
pub proof fn lemma_wire_image_len(t: Trajectory)
    ensures
        wire_image(t).len() == WIRE_LEN,
{
    vstd::bytes::lemma_auto_spec_u32_to_from_le_bytes();
    vstd::bytes::lemma_auto_spec_u64_to_from_le_bytes();
}

/// The layout round-trips: the bytes written for a trajectory are well
/// framed and hold that trajectory, bit for bit.
pub proof fn law_layout_round_trip(t: Trajectory)
    ensures
        well_framed(wire_image(t)),
        parsed(wire_image(t)) == t,
{
    vstd::bytes::lemma_auto_spec_u32_to_from_le_bytes();
    vstd::bytes::lemma_auto_spec_u64_to_from_le_bytes();
    let image = wire_image(t);
    assert(image.len() == 32);
    assert(image.subrange(1, 5) =~= spec_u32_to_le_bytes(t.pos.x));
    assert(image.subrange(5, 9) =~= spec_u32_to_le_bytes(t.pos.y));
    assert(image.subrange(9, 13) =~= spec_u32_to_le_bytes(t.vel.x));
    assert(image.subrange(13, 17) =~= spec_u32_to_le_bytes(t.vel.y));
    assert(image.subrange(17, 21) =~= spec_u32_to_le_bytes(t.spin));
    assert(image.subrange(22, 30) =~= spec_u64_to_le_bytes(t.time));
    assert(image[0] == if t.propelling { 1u8 } else { 0u8 });
    assert(image[21] == byte_of(t.spin_direction));
    assert(image[30] == t.health);
    assert(image[31] == t.boosters);
    assert(signed_of(byte_of(t.spin_direction)) == t.spin_direction);
}

/// The checkpoint text round-trips: reading the text written for a
/// trajectory gives that trajectory.
pub proof fn law_checkpoint_round_trip(t: Trajectory, text: Seq<char>)
    requires
        base64_bytes(text) == Some(wire_image(t)),
    ensures
        well_framed(wire_image(t)),
        parsed(base64_bytes(text)->0) == t,
{
    law_layout_round_trip(t);
}

} // verus!
