//! The fixed configuration of the playfield: its size, the strength of its
//! forces, and the bodies that pull at the players and kill on contact.
//!
//! Every quantity is the bit pattern of an IEEE 754 single-precision number;
//! the comment beside it gives the number.

use crate::trajectory::Vector;
use vstd::prelude::*;

verus! {

/// Radius of a player's disc: 25.
pub const PLAYER_RADIUS: u32 = 0x41c80000;

/// Radius of the dome that holds the playfield: 6000.
pub const DOME_RADIUS: u32 = 0x45bb8000;

/// Thrust of one booster, per second: 200.
pub const ACCELERATION: u32 = 0x43480000;

/// Gravitational constant: 2000.
pub const G: u32 = 0x44fa0000;

/// Reach of a pistol shot: 500.
pub const PISTOL_REACH: u32 = 0x43fa0000;

/// Greatest distance from which loot can be claimed: 25.
pub const LOOT_RADIUS: u32 = 0x41c80000;

/// Strongest pull under which a player may spawn: 2.
pub const SPAWN_PULL_MAX: u32 = 0x40000000;

/// Number of bodies in the playfield.
pub const NUM_BODIES: usize = 25;

/// A gravitating disc.  It pulls with a strength proportional to the square
/// of its radius, and whoever comes closer to its centre than its radius and
/// `PLAYER_RADIUS` together collides with it.
#[derive(Clone, Copy, Debug, PartialEq, Eq, Structural)]
pub struct Body {
    pub pos: Vector,
    pub radius: u32,
}

/// The bodies of the playfield.
pub open spec fn bodies() -> Seq<Body> {
    seq![
        // (-2142, 1319), radius 82
        Body { pos: Vector { x: 0xc505e000, y: 0x44a4e000 }, radius: 0x42a40000 },
        // (593, 1712), radius 85
        Body { pos: Vector { x: 0x44144000, y: 0x44d60000 }, radius: 0x42aa0000 },
        // (1630, 4858), radius 79
        Body { pos: Vector { x: 0x44cbc000, y: 0x4597d000 }, radius: 0x429e0000 },
        // (1123, -4422), radius 142
        Body { pos: Vector { x: 0x448c6000, y: 0xc58a3000 }, radius: 0x430e0000 },
        // (-4643, 2987), radius 132
        Body { pos: Vector { x: 0xc5911800, y: 0x453ab000 }, radius: 0x43040000 },
        // (4568, 271), radius 93
        Body { pos: Vector { x: 0x458ec000, y: 0x43878000 }, radius: 0x42ba0000 },
        // (2702, -553), radius 116
        Body { pos: Vector { x: 0x4528e000, y: 0xc40a4000 }, radius: 0x42e80000 },
        // (-479, 985), radius 129
        Body { pos: Vector { x: 0xc3ef8000, y: 0x44764000 }, radius: 0x43010000 },
        // (-1510, -2840), radius 119
        Body { pos: Vector { x: 0xc4bcc000, y: 0xc5318000 }, radius: 0x42ee0000 },
        // (3043, 3680), radius 109
        Body { pos: Vector { x: 0x453e3000, y: 0x45660000 }, radius: 0x42da0000 },
        // (-3052, 2069), radius 120
        Body { pos: Vector { x: 0xc53ec000, y: 0x45015000 }, radius: 0x42f00000 },
        // (4800, 4797), radius 132
        Body { pos: Vector { x: 0x45960000, y: 0x4595e800 }, radius: 0x43040000 },
        // (-2845, 1859), radius 118
        Body { pos: Vector { x: 0xc531d000, y: 0x44e86000 }, radius: 0x42ec0000 },
        // (-1327, 4248), radius 147
        Body { pos: Vector { x: 0xc4a5e000, y: 0x4584c000 }, radius: 0x43130000 },
        // (2427, 4087), radius 69
        Body { pos: Vector { x: 0x4517b000, y: 0x457f7000 }, radius: 0x428a0000 },
        // (4132, -3446), radius 103
        Body { pos: Vector { x: 0x45812000, y: 0xc5576000 }, radius: 0x42ce0000 },
        // (-1985, -1525), radius 118
        Body { pos: Vector { x: 0xc4f82000, y: 0xc4bea000 }, radius: 0x42ec0000 },
        // (3460, -1882), radius 57
        Body { pos: Vector { x: 0x45584000, y: 0xc4eb4000 }, radius: 0x42640000 },
        // (1018, -1342), radius 134
        Body { pos: Vector { x: 0x447e8000, y: 0xc4a7c000 }, radius: 0x43060000 },
        // (71, 2422), radius 145
        Body { pos: Vector { x: 0x428e0000, y: 0x45176000 }, radius: 0x43110000 },
        // (2966, 835), radius 77
        Body { pos: Vector { x: 0x45396000, y: 0x4450c000 }, radius: 0x429a0000 },
        // (4558, -2721), radius 59
        Body { pos: Vector { x: 0x458e7000, y: 0xc52a1000 }, radius: 0x426c0000 },
        // (-3210, 1010), radius 93
        Body { pos: Vector { x: 0xc548a000, y: 0x447c8000 }, radius: 0x42ba0000 },
        // (256, 3800), radius 57
        Body { pos: Vector { x: 0x43800000, y: 0x456d8000 }, radius: 0x42640000 },
        // (1981, 3697), radius 108
        Body { pos: Vector { x: 0x44f7a000, y: 0x45671000 }, radius: 0x42d80000 },
    ]
}

/// The body at `index`, if there is one.
pub fn getbody(index: usize) -> (body: Option<Body>)
    ensures
        body == if index < bodies().len() {
            Some(bodies()[index as int])
        } else {
            None
        },
{
    let list = [
        Body { pos: Vector { x: 0xc505e000, y: 0x44a4e000 }, radius: 0x42a40000 },
        Body { pos: Vector { x: 0x44144000, y: 0x44d60000 }, radius: 0x42aa0000 },
        Body { pos: Vector { x: 0x44cbc000, y: 0x4597d000 }, radius: 0x429e0000 },
        Body { pos: Vector { x: 0x448c6000, y: 0xc58a3000 }, radius: 0x430e0000 },
        Body { pos: Vector { x: 0xc5911800, y: 0x453ab000 }, radius: 0x43040000 },
        Body { pos: Vector { x: 0x458ec000, y: 0x43878000 }, radius: 0x42ba0000 },
        Body { pos: Vector { x: 0x4528e000, y: 0xc40a4000 }, radius: 0x42e80000 },
        Body { pos: Vector { x: 0xc3ef8000, y: 0x44764000 }, radius: 0x43010000 },
        Body { pos: Vector { x: 0xc4bcc000, y: 0xc5318000 }, radius: 0x42ee0000 },
        Body { pos: Vector { x: 0x453e3000, y: 0x45660000 }, radius: 0x42da0000 },
        Body { pos: Vector { x: 0xc53ec000, y: 0x45015000 }, radius: 0x42f00000 },
        Body { pos: Vector { x: 0x45960000, y: 0x4595e800 }, radius: 0x43040000 },
        Body { pos: Vector { x: 0xc531d000, y: 0x44e86000 }, radius: 0x42ec0000 },
        Body { pos: Vector { x: 0xc4a5e000, y: 0x4584c000 }, radius: 0x43130000 },
        Body { pos: Vector { x: 0x4517b000, y: 0x457f7000 }, radius: 0x428a0000 },
        Body { pos: Vector { x: 0x45812000, y: 0xc5576000 }, radius: 0x42ce0000 },
        Body { pos: Vector { x: 0xc4f82000, y: 0xc4bea000 }, radius: 0x42ec0000 },
        Body { pos: Vector { x: 0x45584000, y: 0xc4eb4000 }, radius: 0x42640000 },
        Body { pos: Vector { x: 0x447e8000, y: 0xc4a7c000 }, radius: 0x43060000 },
        Body { pos: Vector { x: 0x428e0000, y: 0x45176000 }, radius: 0x43110000 },
        Body { pos: Vector { x: 0x45396000, y: 0x4450c000 }, radius: 0x429a0000 },
        Body { pos: Vector { x: 0x458e7000, y: 0xc52a1000 }, radius: 0x426c0000 },
        Body { pos: Vector { x: 0xc548a000, y: 0x447c8000 }, radius: 0x42ba0000 },
        Body { pos: Vector { x: 0x43800000, y: 0x456d8000 }, radius: 0x42640000 },
        Body { pos: Vector { x: 0x44f7a000, y: 0x45671000 }, radius: 0x42d80000 },
    ];
    assert(list@ =~= bodies());
    if index >= NUM_BODIES {
        return None;
    }
    Some(list[index])
}

pub fn num_bodies() -> (n: usize)
    ensures
        n == bodies().len(),
{
    NUM_BODIES
}

pub fn dome_radius() -> (radius: u32)
    ensures
        radius == DOME_RADIUS,
{
    DOME_RADIUS
}

} // verus!
