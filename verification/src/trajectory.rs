//! The fixed-timestep state machine of one player.
//!
//! Coordinates, velocities and angles are held as IEEE 754 single-precision
//! bit patterns.  The library never does arithmetic on them: the kinematics of
//! one step are computed by a caller-supplied function and adopted here.

use crate::hex::{dec_text, hex_text, int_text, signed_to_dec, to_dec, to_hex};
use std::collections::hash_map::DefaultHasher;
use std::hash::Hasher;
use vstd::bytes::{spec_u32_to_le_bytes, spec_u64_to_le_bytes, u32_to_le_bytes, u64_to_le_bytes};
use vstd::prelude::*;
use vstd::std_specs::hash::DefaultHasherAdditionalSpecFns;
use vstd::string::StringExecFns;

verus! {

/// Steps per second of simulated time.
pub const TIMESTEP_FPS: u64 = 10;

/// Milliseconds covered by one step.
pub const TIMESTEP_MILLIS: u64 = 100;

/// How far ahead of the server clock a claimed change may lie, in milliseconds.
pub const MAX_TIME_AHEAD: u64 = 400;

/// How far behind the server clock a claimed change may lie, in milliseconds.
pub const MAX_TIME_BEFORE: u64 = 500;

/// A point or direction in the plane, each coordinate a single-precision bit pattern.
#[derive(Clone, Copy, Debug, PartialEq, Eq, Structural)]
pub struct Vector {
    pub x: u32,
    pub y: u32,
}

/// What the kinematics of one step yield for a live trajectory.
#[derive(Clone, Copy, Debug, PartialEq, Eq, Structural)]
pub struct Motion {
    /// Position after the step.
    pub pos: Vector,
    /// Velocity after the step.
    pub vel: Vector,
    /// Spin angle after the step.
    pub spin: u32,
    /// Whether the new position lies inside the collision disc of a body.
    pub collides: bool,
}

/// The authoritative physical state of one player.
#[derive(Clone, Copy, Debug, PartialEq, Eq, Structural)]
pub struct Trajectory {
    pub propelling: bool,
    pub pos: Vector,
    pub vel: Vector,
    pub spin: u32,
    /// -1, 0 or 1.
    pub spin_direction: i8,
    /// Simulation clock in milliseconds.
    pub time: u64,
    pub health: u8,
    pub boosters: u8,
}

/// The discrete events that can change a trajectory between steps.
#[derive(Clone, Copy, Debug, PartialEq, Eq, Structural)]
pub enum UpdateType {
    RotStop,
    RotCw,
    RotCcw,
    PropOn,
    PropOff,
    AddBoost,
    Bullet,
    Health,
}

/// An event together with its amount, where it has one.
#[derive(Clone, Copy, Debug, PartialEq, Eq, Structural)]
pub struct UpdateTypeWrapper {
    pub utype: UpdateType,
    /// Damage for `Bullet`, healing for `Health`; absent counts as 0.
    pub value: Option<u8>,
}

impl UpdateTypeWrapper {
    pub fn new(utype: UpdateType, value: Option<u8>) -> (w: Self)
        ensures
            w.utype == utype,
            w.value == value,
    {
        UpdateTypeWrapper { utype, value }
    }

    /// The amount carried, 0 where there is none.
    pub open spec fn amount(self) -> u8 {
        match self.value {
            Some(v) => v,
            None => 0,
        }
    }
}

/// The way a player turns.
#[derive(Clone, Copy, Debug, PartialEq, Eq, Structural, Hash)]
pub enum PlayerRotation {
    AntiClockwise,
    Clockwise,
    Stopped,
}

impl PlayerRotation {
    /// The direction of spin that stands for the rotation: 1 clockwise, -1
    /// anticlockwise, 0 stopped.
    pub open spec fn direction(self) -> i8 {
        match self {
            PlayerRotation::Clockwise => 1,
            PlayerRotation::AntiClockwise => -1i8,
            PlayerRotation::Stopped => 0,
        }
    }

    /// The event that makes a trajectory turn this way.
    pub open spec fn change(self) -> UpdateTypeWrapper {
        UpdateTypeWrapper {
            utype: match self {
                PlayerRotation::Clockwise => UpdateType::RotCw,
                PlayerRotation::AntiClockwise => UpdateType::RotCcw,
                PlayerRotation::Stopped => UpdateType::RotStop,
            },
            value: None,
        }
    }

    /// Gives the event that makes a trajectory turn this way: applied, it
    /// sets the direction of spin and nothing else.
    pub fn as_change(self) -> (change: UpdateTypeWrapper)
        ensures
            change == self.change(),
            forall|t: Trajectory|
                t.admits(change) && #[trigger] t.changed(change) == (Trajectory {
                    spin_direction: self.direction(),
                    ..t
                }),
    {
        let utype = match self {
            PlayerRotation::Clockwise => UpdateType::RotCw,
            PlayerRotation::AntiClockwise => UpdateType::RotCcw,
            PlayerRotation::Stopped => UpdateType::RotStop,
        };
        UpdateTypeWrapper { utype, value: None }
    }
}

/// The motion that `physics` yields for `t`.
pub open spec fn motion_of<F: Fn(&Trajectory) -> Motion>(physics: &F, t: Trajectory) -> Motion {
    choose|m: Motion| call_ensures(*physics, (&t,), m)
}

/// `physics` accepts every trajectory and is a function of it.
pub open spec fn deterministic<F: Fn(&Trajectory) -> Motion>(physics: &F) -> bool {
    &&& forall|t: Trajectory| call_requires(*physics, (&t,))
    &&& forall|t: Trajectory, m: Motion| #[trigger]
        call_ensures(*physics, (&t,), m) ==> m == motion_of(physics, t)
}

/// Number of whole timesteps between `from` and `target`.
pub open spec fn steps_due(from: u64, target: u64) -> nat {
    if target <= from {
        0
    } else {
        ((target - from) / TIMESTEP_MILLIS as int) as nat
    }
}

impl Trajectory {
    /// The direction of spin is -1, 0 or 1.
    pub open spec fn wf(self) -> bool {
        -1 <= self.spin_direction <= 1
    }

    /// A live trajectory after one step whose kinematics gave `m`.
    pub open spec fn moved(self, m: Motion) -> Trajectory {
        Trajectory {
            pos: m.pos,
            vel: m.vel,
            spin: m.spin,
            time: (self.time + TIMESTEP_MILLIS) as u64,
            health: if m.collides {
                0
            } else {
                self.health
            },
            ..self
        }
    }

    /// What `step` reports: whether the trajectory was alive, and so moved.
    pub open spec fn steps(self) -> bool {
        self.health != 0
    }

    /// The trajectory after one call of `step`: frozen once dead.
    pub open spec fn stepped<F: Fn(&Trajectory) -> Motion>(self, physics: &F) -> Trajectory {
        if self.health == 0 {
            self
        } else {
            self.moved(motion_of(physics, self))
        }
    }

    /// The trajectory after `n` calls of `step`.
    pub open spec fn run<F: Fn(&Trajectory) -> Motion>(self, physics: &F, n: nat) -> Trajectory
        decreases n,
    {
        if n == 0 {
            self
        } else {
            self.stepped(physics).run(physics, (n - 1) as nat)
        }
    }

    /// The trajectory after the discrete event `change`.
    pub open spec fn changed(self, change: UpdateTypeWrapper) -> Trajectory {
        match change.utype {
            UpdateType::RotStop => Trajectory { spin_direction: 0, ..self },
            UpdateType::RotCw => Trajectory { spin_direction: 1, ..self },
            UpdateType::RotCcw => Trajectory { spin_direction: -1i8, ..self },
            UpdateType::PropOn => Trajectory { propelling: true, ..self },
            UpdateType::PropOff => Trajectory { propelling: false, ..self },
            UpdateType::AddBoost => Trajectory { boosters: (self.boosters + 1) as u8, ..self },
            UpdateType::Bullet => Trajectory {
                health: if self.health >= change.amount() {
                    (self.health - change.amount()) as u8
                } else {
                    0
                },
                ..self
            },
            UpdateType::Health => Trajectory {
                health: if self.health + change.amount() <= u8::MAX {
                    (self.health + change.amount()) as u8
                } else {
                    u8::MAX
                },
                ..self
            },
        }
    }

    /// The byte strings fed to the hasher, in order: every field that
    /// affects the simulation to come, numbers in little-endian order.
    pub open spec fn hash_input(self) -> Seq<Seq<u8>> {
        seq![
            seq![if self.propelling { 1u8 } else { 0u8 }],
            spec_u32_to_le_bytes(self.pos.x),
            spec_u32_to_le_bytes(self.pos.y),
            spec_u32_to_le_bytes(self.vel.x),
            spec_u32_to_le_bytes(self.vel.y),
            spec_u32_to_le_bytes(self.spin),
            seq![byte_of(self.spin_direction)],
            spec_u64_to_le_bytes(self.time),
            seq![self.health],
        ]
    }

    /// The 64-bit digest of the trajectory.
    pub open spec fn digest(self) -> u64 {
        DefaultHasher::spec_finish(self.hash_input())
    }

    /// The digest as the short text that travels with a claimed change.
    pub open spec fn hash_text(self) -> Seq<char> {
        hex_text(self.digest() as nat)
    }

    /// The fields that are hashed, as one line of text: the flag as `true`
    /// or `false`, the bit patterns in hexadecimal, direction, clock and
    /// health in decimal, with commas between them.
    pub open spec fn dump_text(self) -> Seq<char> {
        (if self.propelling { "true"@ } else { "false"@ })
            + ","@ + hex_text(self.pos.x as nat)
            + ","@ + hex_text(self.pos.y as nat)
            + ","@ + hex_text(self.vel.x as nat)
            + ","@ + hex_text(self.vel.y as nat)
            + ","@ + hex_text(self.spin as nat)
            + ","@ + int_text(self.spin_direction as int)
            + ","@ + dec_text(self.time as nat)
            + ","@ + dec_text(self.health as nat)
    }

    /// Whether a change claimed for `update_time` is fresh when the server
    /// clock reads `time`: not before the trajectory's own clock, and neither
    /// too far ahead of the server clock nor too far behind it.
    pub open spec fn timely(self, update_time: u64, time: u64) -> bool {
        &&& update_time >= self.time
        &&& update_time > time ==> update_time - time <= MAX_TIME_AHEAD
        &&& update_time < time ==> time - update_time <= MAX_TIME_BEFORE
    }

    /// Whether `update` accepts `change`, claimed for `update_time` with the
    /// checkpoint `hash`: the claim is fresh, the digest reached at
    /// `update_time` is the claimed one, and the change can be applied.
    pub open spec fn accepts<F: Fn(&Trajectory) -> Motion>(
        self,
        physics: &F,
        change: UpdateTypeWrapper,
        hash: Seq<char>,
        update_time: u64,
        time: u64,
    ) -> bool {
        &&& self.timely(update_time, time)
        &&& self.at_time(physics, update_time).hash_text() == hash
        &&& self.admits(change)
    }

    /// The trajectory that `update` leaves behind.
    pub open spec fn updated<F: Fn(&Trajectory) -> Motion>(
        self,
        physics: &F,
        change: UpdateTypeWrapper,
        hash: Seq<char>,
        update_time: u64,
        time: u64,
    ) -> Trajectory {
        if !self.timely(update_time, time) {
            self
        } else if self.accepts(physics, change, hash, update_time, time) {
            self.at_time(physics, update_time).changed(change)
        } else {
            self.at_time(physics, update_time)
        }
    }

    /// Whether `change` can be applied: one more booster must fit.  Steps do
    /// not change that.
    pub open spec fn admits(self, change: UpdateTypeWrapper) -> bool {
        change.utype is AddBoost ==> self.boosters < u8::MAX
    }

    /// What `advance` reports for the target time `time`: the target lies
    /// ahead, and no due step found the trajectory dead.
    pub open spec fn advances<F: Fn(&Trajectory) -> Motion>(self, physics: &F, time: u64) -> bool {
        let due = steps_due(self.time, time);
        time > self.time && (due == 0 || self.run(physics, (due - 1) as nat).health != 0)
    }

    /// The trajectory fast-forwarded to `time`: every whole timestep that
    /// fits is taken, the rest of the interval is dropped.
    pub open spec fn at_time<F: Fn(&Trajectory) -> Motion>(self, physics: &F, time: u64) -> Trajectory {
        self.run(physics, steps_due(self.time, time))
    }

    /// A trajectory at rest at `pos`, created at `time`: full health, one
    /// booster, no spin, no thrust.
    pub open spec fn newborn(pos: Vector, time: u64) -> Trajectory {
        Trajectory {
            propelling: false,
            pos,
            vel: Vector { x: 0, y: 0 },
            spin: 0,
            spin_direction: 0,
            time,
            health: u8::MAX,
            boosters: 1,
        }
    }

    /// Creates the trajectory of a player who spawns at `pos` at `time`.
    pub fn spawn(pos: Vector, time: u64) -> (t: Trajectory)
        ensures
            t == Trajectory::newborn(pos, time),
    {
        Trajectory {
            propelling: false,
            pos,
            vel: Vector { x: 0, y: 0 },
            spin: 0,
            spin_direction: 0,
            time,
            health: 0xff,
            boosters: 1,
        }
    }

    /// Advances by one timestep.  A dead trajectory stays as it is and the
    /// result is `false`; a live one adopts the motion that `physics` computes
    /// for it, its clock moves on by one timestep, and a collision kills it.
    pub fn step<F: Fn(&Trajectory) -> Motion>(&mut self, physics: &F) -> (stepped: bool)
        requires
            deterministic(physics),
            old(self).health != 0 ==> old(self).time + TIMESTEP_MILLIS <= u64::MAX,
        ensures
            stepped == old(self).steps(),
            *final(self) == old(self).stepped(physics),
    {
        if self.health == 0 {
            return false;
        }
        let m = physics(&*self);
        self.pos = m.pos;
        self.vel = m.vel;
        self.spin = m.spin;
        self.time = self.time + TIMESTEP_MILLIS;
        if m.collides {
            self.health = 0;
        }
        true
    }

    /// Steps while a whole timestep fits before `time`.  Stops, and reports
    /// `false`, the moment a step finds the trajectory dead; also reports
    /// `false` where `time` does not lie ahead.  Where `time` lies ahead by
    /// less than a timestep no step is due, and the report is `true`.
    pub fn advance<F: Fn(&Trajectory) -> Motion>(&mut self, time: u64, physics: &F) -> (advanced: bool)
        requires
            deterministic(physics),
        ensures
            *final(self) == old(self).at_time(physics, time),
            advanced == old(self).advances(physics, time),
    {
        if time <= self.time {
            return false;
        }
        let steps: u64 = (time - self.time) / TIMESTEP_MILLIS;
        let mut done: u64 = 0;
        while done < steps
            invariant
                deterministic(physics),
                done <= steps,
                steps == steps_due(old(self).time, time),
                old(self).time < time,
                *self == old(self).run(physics, done as nat),
                self.health != 0 ==> self.time == old(self).time + TIMESTEP_MILLIS * done,
                done > 0 ==> old(self).run(physics, (done - 1) as nat).health != 0,
            decreases steps - done,
        {
            proof {
                lemma_run_step(*old(self), physics, done as nat);
            }
            if !self.step(physics) {
                proof {
                    lemma_run_frozen(*old(self), physics, done as nat, steps as nat);
                    lemma_run_frozen(*old(self), physics, done as nat, (steps - 1) as nat);
                }
                return false;
            }
            done = done + 1;
        }
        true
    }

    /// Fast-forwards to `time` like `advance`, without a report.
    pub fn advance_to_time<F: Fn(&Trajectory) -> Motion>(&mut self, time: u64, physics: &F)
        requires
            deterministic(physics),
        ensures
            *final(self) == old(self).at_time(physics, time),
    {
        let _ = self.advance(time, physics);
    }

    /// Fast-forwards to the oldest time that a claimed change may still name
    /// when the server clock reads `time`.
    pub fn advance_to_min_time<F: Fn(&Trajectory) -> Motion>(&mut self, time: u64, physics: &F)
        requires
            deterministic(physics),
            time >= MAX_TIME_BEFORE,
        ensures
            *final(self) == old(self).at_time(physics, (time - MAX_TIME_BEFORE) as u64),
    {
        self.advance_to_time(time - MAX_TIME_BEFORE, physics);
    }

    /// Hashes the fields that affect the simulation to come.  `boosters` is
    /// not among them.
    pub fn hash(&self) -> (d: u64)
        ensures
            d == self.digest(),
    {
        let flag: u8 = if self.propelling { 1 } else { 0 };
        let first: Vec<u8> = vec![flag];
        let direction: Vec<u8> = vec![signed_byte(self.spin_direction)];
        let last: Vec<u8> = vec![self.health];
        assert(first@ =~= seq![flag]);
        assert(direction@ =~= seq![byte_of(self.spin_direction)]);
        assert(last@ =~= seq![self.health]);
        let mut hasher = DefaultHasher::new();
        hasher.write(first.as_slice());
        hasher.write(u32_to_le_bytes(self.pos.x).as_slice());
        hasher.write(u32_to_le_bytes(self.pos.y).as_slice());
        hasher.write(u32_to_le_bytes(self.vel.x).as_slice());
        hasher.write(u32_to_le_bytes(self.vel.y).as_slice());
        hasher.write(u32_to_le_bytes(self.spin).as_slice());
        hasher.write(direction.as_slice());
        hasher.write(u64_to_le_bytes(self.time).as_slice());
        hasher.write(last.as_slice());
        assert(hasher@ =~= self.hash_input());
        hasher.finish()
    }

    /// Writes the hashed fields as one line of text.
    pub fn dump(&self) -> (s: String)
        ensures
            s@ == self.dump_text(),
    {
        let mut s = if self.propelling {
            String::from_str("true")
        } else {
            String::from_str("false")
        };
        s.append(",");
        s.append(to_hex(self.pos.x as u64).as_str());
        s.append(",");
        s.append(to_hex(self.pos.y as u64).as_str());
        s.append(",");
        s.append(to_hex(self.vel.x as u64).as_str());
        s.append(",");
        s.append(to_hex(self.vel.y as u64).as_str());
        s.append(",");
        s.append(to_hex(self.spin as u64).as_str());
        s.append(",");
        s.append(signed_to_dec(self.spin_direction).as_str());
        s.append(",");
        s.append(to_dec(self.time).as_str());
        s.append(",");
        s.append(to_dec(self.health as u64).as_str());
        s
    }

    /// The digest in lower-case hexadecimal, without leading zeros.
    pub fn hash_str(&self) -> (s: String)
        ensures
            s@ == self.hash_text(),
    {
        to_hex(self.hash())
    }

    /// Fast-forwards to `time` and compares the digest reached there with
    /// `expected_hash`.
    pub fn advance_to_time_check<F: Fn(&Trajectory) -> Motion>(
        &mut self,
        time: u64,
        expected_hash: String,
        physics: &F,
    ) -> (matches: bool)
        requires
            deterministic(physics),
        ensures
            *final(self) == old(self).at_time(physics, time),
            matches == (final(self).hash_text() == expected_hash@),
    {
        self.advance_to_time(time, physics);
        self.hash_str() == expected_hash
    }

    /// Reconciles a change that a client claims to have made at
    /// `update_time`, on a trajectory whose digest was `hash`, with the
    /// server clock at `time`.  A stale or premature claim leaves the
    /// trajectory as it is.  Otherwise the trajectory is fast-forwarded to
    /// `update_time`, and the change is applied there if and only if the
    /// digest matches and the change can be applied at all.  A change is
    /// applied whole or not at all.
    pub fn update<F: Fn(&Trajectory) -> Motion>(
        &mut self,
        change: UpdateTypeWrapper,
        hash: String,
        update_time: u64,
        time: u64,
        physics: &F,
    ) -> (accepted: bool)
        requires
            deterministic(physics),
        ensures
            accepted == old(self).accepts(physics, change, hash@, update_time, time),
            *final(self) == old(self).updated(physics, change, hash@, update_time, time),
    {
        if update_time < self.time {
            return false;
        }
        if update_time > time && update_time - time > MAX_TIME_AHEAD {
            return false;
        }
        if update_time < time && time - update_time > MAX_TIME_BEFORE {
            return false;
        }
        if !self.advance_to_time_check(update_time, hash, physics) {
            return false;
        }
        proof {
            lemma_run_keeps_boosters(*old(self), physics, steps_due(old(self).time, update_time));
        }
        let fits = match change.utype {
            UpdateType::AddBoost => self.boosters < u8::MAX,
            _ => true,
        };
        if !fits {
            return false;
        }
        self.apply_change(change);
        true
    }

    /// Applies a discrete event.  It takes no simulated time.
    pub fn apply_change(&mut self, change: UpdateTypeWrapper)
        requires
            old(self).admits(change),
        ensures
            *final(self) == old(self).changed(change),
    {
        let amount: u8 = match change.value {
            Some(v) => v,
            None => 0,
        };
        match change.utype {
            UpdateType::RotStop => {
                self.spin_direction = 0;
            },
            UpdateType::RotCw => {
                self.spin_direction = 1;
            },
            UpdateType::RotCcw => {
                self.spin_direction = -1;
            },
            UpdateType::PropOn => {
                self.propelling = true;
            },
            UpdateType::PropOff => {
                self.propelling = false;
            },
            UpdateType::AddBoost => {
                self.boosters = self.boosters + 1;
            },
            UpdateType::Bullet => {
                self.health = self.health.saturating_sub(amount);
            },
            UpdateType::Health => {
                self.health = self.health.saturating_add(amount);
            },
        }
    }
}

/// The byte that stands for a signed byte: its two's complement.
pub open spec fn byte_of(v: i8) -> u8 {
    if v >= 0 {
        v as u8
    } else {
        (v + 256) as u8
    }
}

/// Computes `byte_of`.
pub fn signed_byte(v: i8) -> (b: u8)
    ensures
        b == byte_of(v),
{
    if v >= 0 {
        v as u8
    } else {
        let wide: i16 = v as i16;
        (wide + 256) as u8
    }
}

/// One more step after `n` is the step taken from the state after `n`.
pub proof fn lemma_run_step<F: Fn(&Trajectory) -> Motion>(t: Trajectory, physics: &F, n: nat)
    ensures
        t.run(physics, n + 1) == t.run(physics, n).stepped(physics),
    decreases n,
{
    let first = t.stepped(physics);
    assert(t.run(physics, n + 1) == first.run(physics, n));
    if n > 0 {
        lemma_run_step(first, physics, (n - 1) as nat);
        assert(t.run(physics, n) == first.run(physics, (n - 1) as nat));
    } else {
        assert(first.run(physics, 0) == first);
    }
}

/// Stepping changes neither the boosters, the propulsion flag nor the
/// direction of spin.
pub proof fn lemma_run_keeps_boosters<F: Fn(&Trajectory) -> Motion>(
    t: Trajectory,
    physics: &F,
    n: nat,
)
    ensures
        t.run(physics, n).boosters == t.boosters,
        t.run(physics, n).propelling == t.propelling,
        t.run(physics, n).spin_direction == t.spin_direction,
    decreases n,
{
    if n > 0 {
        lemma_run_keeps_boosters(t.stepped(physics), physics, (n - 1) as nat);
    }
}

/// A trajectory found dead after `n` steps is the same after any later step.
pub proof fn lemma_run_frozen<F: Fn(&Trajectory) -> Motion>(
    t: Trajectory,
    physics: &F,
    n: nat,
    later: nat,
)
    requires
        t.run(physics, n).health == 0,
        n <= later,
    ensures
        t.run(physics, later) == t.run(physics, n),
    decreases later - n,
{
    if n < later {
        lemma_run_frozen(t, physics, n, (later - 1) as nat);
        lemma_run_step(t, physics, (later - 1) as nat);
    }
}

/// A well-formed trajectory stays well formed: it is born so, and neither
/// steps nor events change that.
pub proof fn law_wf_is_kept<F: Fn(&Trajectory) -> Motion>(
    t: Trajectory,
    physics: &F,
    n: nat,
    change: UpdateTypeWrapper,
    target: u64,
)
    requires
        t.wf(),
    ensures
        t.run(physics, n).wf(),
        t.at_time(physics, target).wf(),
        t.changed(change).wf(),
        Trajectory::newborn(t.pos, t.time).wf(),
{
    lemma_run_keeps_boosters(t, physics, n);
    lemma_run_keeps_boosters(t, physics, steps_due(t.time, target));
}

/// Determinism: for two trajectories with the same field values, a step
/// reports the same and leaves the same field values, and so do any number
/// of steps; the digest text is the same too.
pub proof fn law_determinism<F: Fn(&Trajectory) -> Motion>(
    a: Trajectory,
    b: Trajectory,
    physics: &F,
    n: nat,
)
    requires
        a.propelling == b.propelling,
        a.pos.x == b.pos.x,
        a.pos.y == b.pos.y,
        a.vel.x == b.vel.x,
        a.vel.y == b.vel.y,
        a.spin == b.spin,
        a.spin_direction == b.spin_direction,
        a.time == b.time,
        a.health == b.health,
        a.boosters == b.boosters,
    ensures
        a.steps() == b.steps(),
        a.stepped(physics) == b.stepped(physics),
        a.run(physics, n) == b.run(physics, n),
        a.run(physics, n).hash_text() == b.run(physics, n).hash_text(),
{
    assert(a == b);
}

/// Freeze on death: for a trajectory without health a step reports `false`
/// and leaves every field as it is, and so does any number of steps.
pub proof fn law_frozen_when_dead<F: Fn(&Trajectory) -> Motion>(t: Trajectory, physics: &F, n: nat)
    requires
        t.health == 0,
    ensures
        !t.steps(),
        t.stepped(physics) == t,
        t.run(physics, n) == t,
{
    assert(t.run(physics, 0) == t);
    lemma_run_frozen(t, physics, 0, n);
}

/// A step in which the kinematics report a collision leaves no health.
pub proof fn law_collision_is_fatal<F: Fn(&Trajectory) -> Motion>(t: Trajectory, physics: &F)
    requires
        t.health != 0,
        motion_of(physics, t).collides,
    ensures
        t.steps(),
        t.stepped(physics).health == 0,
        t.stepped(physics).time == (t.time + TIMESTEP_MILLIS) as u64,
{
}

/// The clock of a trajectory only moves in whole timesteps, and never past
/// the target of a fast-forward.
pub proof fn law_clock_moves_in_timesteps<F: Fn(&Trajectory) -> Motion>(
    t: Trajectory,
    physics: &F,
    target: u64,
)
    ensures
        t.at_time(physics, target).time >= t.time,
        (t.at_time(physics, target).time - t.time) % (TIMESTEP_MILLIS as int) == 0,
        target >= t.time ==> t.at_time(physics, target).time <= target,
        t.at_time(physics, target).health != 0 && target >= t.time ==> target - t.at_time(
            physics,
            target,
        ).time < TIMESTEP_MILLIS,
{
    let due = steps_due(t.time, target);
    lemma_run_clock(t, physics, due, due);
}

/// After `n` of `due` steps that fit into the clock, the clock has moved by
/// a whole number of timesteps, at most `n`, and by exactly `n` while alive.
proof fn lemma_run_clock<F: Fn(&Trajectory) -> Motion>(t: Trajectory, physics: &F, n: nat, due: nat)
    requires
        n <= due,
        t.time + TIMESTEP_MILLIS * due <= u64::MAX,
    ensures
        t.time <= t.run(physics, n).time <= t.time + TIMESTEP_MILLIS * n,
        (t.run(physics, n).time - t.time) % (TIMESTEP_MILLIS as int) == 0,
        t.run(physics, n).health != 0 ==> t.run(physics, n).time == t.time + TIMESTEP_MILLIS * n,
    decreases n,
{
    if n > 0 {
        lemma_run_clock(t, physics, (n - 1) as nat, due);
        lemma_run_step(t, physics, (n - 1) as nat);
    }
}

/// Reconciliation: a change claimed for the very time a trajectory is at,
/// within the freshness bounds, is either applied there, whole and with no
/// step taken, where the claimed digest is the trajectory's and the change
/// can be applied, or leaves every field of the trajectory as it was.
pub proof fn law_reconciliation<F: Fn(&Trajectory) -> Motion>(
    t: Trajectory,
    physics: &F,
    change: UpdateTypeWrapper,
    hash: Seq<char>,
    now: u64,
)
    requires
        t.timely(t.time, now),
    ensures
        t.accepts(physics, change, hash, t.time, now) == (hash == t.hash_text() && t.admits(change)),
        t.accepts(physics, change, hash, t.time, now) ==> t.updated(
            physics,
            change,
            hash,
            t.time,
            now,
        ) == t.changed(change),
        t.changed(change).time == t.time,
        t.changed(change).pos == t.pos && t.changed(change).vel == t.vel && t.changed(change).spin
            == t.spin,
        !t.accepts(physics, change, hash, t.time, now) ==> t.updated(
            physics,
            change,
            hash,
            t.time,
            now,
        ) == t,
{
    assert(t.at_time(physics, t.time) == t);
}

/// A claim that is not fresh is refused with no field changed, whatever the
/// digest: one for a time before the trajectory's own clock, one more than
/// `MAX_TIME_AHEAD` ahead of the server clock, one more than
/// `MAX_TIME_BEFORE` behind it.
pub proof fn law_untimely_claim_changes_nothing<F: Fn(&Trajectory) -> Motion>(
    t: Trajectory,
    physics: &F,
    change: UpdateTypeWrapper,
    hash: Seq<char>,
    update_time: u64,
    now: u64,
)
    requires
        update_time < t.time || (update_time > now && update_time - now > MAX_TIME_AHEAD) || (
        update_time < now && now - update_time > MAX_TIME_BEFORE),
    ensures
        !t.accepts(physics, change, hash, update_time, now),
        t.updated(physics, change, hash, update_time, now) == t,
{
}

/// A refused claim applies nothing, not even in part: the trajectory is
/// left as plain steps leave it (none where the claim is not fresh), and
/// thrust, direction of spin and boosters are as they were.
pub proof fn law_refused_claim_only_steps<F: Fn(&Trajectory) -> Motion>(
    t: Trajectory,
    physics: &F,
    change: UpdateTypeWrapper,
    hash: Seq<char>,
    update_time: u64,
    now: u64,
)
    requires
        !t.accepts(physics, change, hash, update_time, now),
    ensures
        ({
            let after = t.updated(physics, change, hash, update_time, now);
            let steps = if t.timely(update_time, now) {
                steps_due(t.time, update_time)
            } else {
                0
            };
            &&& after == t.run(physics, steps)
            &&& after.propelling == t.propelling
            &&& after.spin_direction == t.spin_direction
            &&& after.boosters == t.boosters
        }),
{
    lemma_run_keeps_boosters(t, physics, steps_due(t.time, update_time));
    assert(t.run(physics, 0) == t);
}

} // verus!
