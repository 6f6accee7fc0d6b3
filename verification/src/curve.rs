//! Closed loops of quadratic curves: each part gives a start and a control
//! point, and ends where the next part starts.

use crate::trajectory::Vector;
use vstd::prelude::*;
use vstd::string::StringExecFns;

verus! {

/// One quadratic curve: start, control point, end.
#[derive(Clone, Copy, Debug, PartialEq, Eq, Structural)]
pub struct QuadBeizer {
    pub s: Vector,
    pub c: Vector,
    pub e: Vector,
}

/// One part of a loop: where it starts, and its control point.
#[derive(Clone, Copy, Debug, PartialEq, Eq, Structural)]
pub struct LoopPart {
    pub s: Vector,
    pub c: Vector,
}

/// A loop of at least two parts.
#[derive(Debug)]
pub struct BeizerLoop {
    pub parts: Vec<LoopPart>,
}

/// The place in a loop of `len` parts that `index` wraps around to.
pub open spec fn wrapped(index: int, len: int) -> int {
    index % len
}

/// The curve of a loop that starts with the part at `index`, counted around
/// the loop in either direction.
pub open spec fn curve_at(parts: Seq<LoopPart>, index: int) -> QuadBeizer {
    let prev = parts[wrapped(index, parts.len() as int)];
    let next = parts[wrapped(index + 1, parts.len() as int)];
    QuadBeizer { s: prev.s, c: prev.c, e: next.s }
}

/// Computes `wrapped` for a loop that is not empty.
fn wrap(index: i32, len: i32) -> (place: usize)
    requires
        len > 0,
    ensures
        place == wrapped(index as int, len as int),
        place < len,
{
    // whole turns added to the index leave the place unchanged
    let turns: i64 = 0x8000_0000;
    let wide: i64 = len as i64;
    assert(0 <= wide * turns <= 0x7fff_ffff * 0x8000_0000) by (nonlinear_arith)
        requires
            0 < wide <= 0x7fff_ffff,
            turns == 0x8000_0000,
    ;
    let shifted: i64 = index as i64 + wide * turns;
    proof {
        vstd::arithmetic::div_mod::lemma_mod_multiples_vanish(turns as int, index as int, len as int);
        assert(wide * turns == (len as int) * (turns as int));
        vstd::arithmetic::div_mod::lemma_mod_bound(index as int, len as int);
    }
    let place: u64 = (shifted as u64) % (wide as u64);
    place as usize
}

impl BeizerLoop {
    /// The loop is closed: it has at least two parts.
    pub open spec fn wf(&self) -> bool {
        self.parts.len() >= 2
    }

    /// Makes a loop of `parts`, of which there must be at least two.
    pub fn new(parts: Vec<LoopPart>) -> (r: Result<Self, String>)
        ensures
            r is Ok <==> parts.len() >= 2,
            r matches Ok(l) ==> l.parts == parts && l.wf(),
            r matches Err(e) ==> e@ == "Beizer loop instantiated without closure"@,
    {
        if parts.len() < 2 {
            return Err(String::from_str("Beizer loop instantiated without closure"));
        }
        Ok(BeizerLoop { parts })
    }

    /// Two thirds of the number of parts, rounded down.
    pub fn num_beizers(&self) -> (n: u32)
        requires
            self.parts.len() <= 0x7fff_ffff,
        ensures
            n == self.parts.len() * 2 / 3,
    {
        let len: u32 = self.parts.len() as u32;
        len * 2 / 3
    }

    /// The curve that starts with the part at `index`; indices wrap around
    /// the loop, below zero too.
    pub fn get_curve(&self, index: i32) -> (curve: QuadBeizer)
        requires
            self.wf(),
            self.parts.len() <= 0x7fff_ffff,
            index < 0x7fff_ffff,
        ensures
            curve == curve_at(self.parts@, index as int),
    {
        let len: i32 = self.parts.len() as i32;
        let prev = self.parts[wrap(index, len)];
        let next = self.parts[wrap(index + 1, len)];
        QuadBeizer { s: prev.s, c: prev.c, e: next.s }
    }
}

} // verus!
