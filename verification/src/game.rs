//! The rules by which a client's message changes the world.
//!
//! A message is handled in one exclusive step on the world: the decision and
//! the mutation cannot be torn apart by another message.

use crate::gameobjects::{
    ClientMessage, ClientMessageModel, InventoryModel, LootDrop, LootDropModel, LootObject,
    PlayerModel, PlayerState, ServerMessage, ServerMessageModel, ShootInfo, ShootModel, Victim,
    VictimModel, player_models,
};
use crate::handler::{spawn_from_prev, SpawnSeed};
use crate::ident::{fresh_id, is_lower_hex, SIMPLE_LEN};
use crate::player::{loot_content, loot_for_roll, LOOT_ROLLS};
use crate::trajectory::{deterministic, Motion, Trajectory, UpdateTypeWrapper, Vector};
use crate::world::{
    lemma_loot_slot_of, lemma_slot_of, lemma_with_loot_wf, lemma_with_player_wf,
    lemma_without_loot_wf, ClientModel, World, WorldModel,
};
use rand::rngs::StdRng;
use rand::{Rng, SeedableRng};
use vstd::prelude::*;

verus! {

/// `rand`'s standard generator, carried from the call that seeds it to the
/// call that draws from it.
#[verifier::external_type_specification]
#[verifier::external_body]
pub struct ExStdRng(StdRng);

/// Calls `StdRng::from_entropy`: a generator seeded by the system.
#[verifier::external_body]
fn entropy_rng() -> (rng: StdRng) {
    StdRng::from_entropy()
}

/// Calls `Rng::gen_range` for the range from 0 up to, and without, `bound`:
/// the number drawn lies in that range.  An empty range is left out.
#[verifier::external_body]
fn roll_of(rng: &mut StdRng, bound: u32) -> (roll: u32)
    requires
        bound > 0,
    ensures
        roll < bound,
{
    rng.gen_range(0..bound)
}

/// Who a message goes to.
#[derive(Debug)]
pub enum Recipient {
    /// Every client with an open connection.
    Everyone,
    /// The client with this identifier.
    Only(String),
}

/// A recipient as a mathematical value.
pub enum RecipientModel {
    Everyone,
    Only(Seq<char>),
}

impl View for Recipient {
    type V = RecipientModel;

    open spec fn view(&self) -> RecipientModel {
        match *self {
            Recipient::Everyone => RecipientModel::Everyone,
            Recipient::Only(id) => RecipientModel::Only(id@),
        }
    }
}

/// A message on its way out.
#[derive(Debug)]
pub struct Outbound {
    pub to: Recipient,
    pub message: ServerMessage,
}

/// An outbound message as a mathematical value.
pub struct OutboundModel {
    pub to: RecipientModel,
    pub message: ServerMessageModel,
}

impl View for Outbound {
    type V = OutboundModel;

    open spec fn view(&self) -> OutboundModel {
        OutboundModel { to: self.to@, message: self.message@ }
    }
}

/// How the handling of a message ended.
#[derive(Clone, Copy, Debug, PartialEq, Eq, Structural)]
pub enum Verdict {
    /// The message was carried out.
    Done,
    /// The sender is not registered.
    UnknownSender,
    /// The message does not fit the sender's vital status.
    NotAllowed,
    /// A claimed change to the trajectory was turned down; the sender is
    /// corrected.
    Rejected,
    /// The selected slot holds no weapon.
    NoWeapon,
    /// The selected weapon is out of ammunition.
    OutOfAmmo,
    /// No loot goes by the identifier.
    LootMissing,
    /// The loot lies out of reach.
    LootTooFar,
    /// No player goes by the identifier.
    UnknownPlayer,
}

/// What the handling of one message yields.
#[derive(Debug)]
pub struct Reply {
    pub verdict: Verdict,
    pub outbound: Option<Outbound>,
}

/// A reply as a mathematical value.
pub struct ReplyModel {
    pub verdict: Verdict,
    pub outbound: Option<OutboundModel>,
}

impl View for Reply {
    type V = ReplyModel;

    open spec fn view(&self) -> ReplyModel {
        ReplyModel {
            verdict: self.verdict,
            outbound: match self.outbound {
                Some(out) => Some(out@),
                None => None,
            },
        }
    }
}

/// What chance contributes to the handling of one message.
#[derive(Debug)]
pub struct Chance {
    /// A number from 0 to 100 that picks the content of dropped loot.
    pub roll: u32,
    /// The identifier for loot that is dropped.
    pub loot_id: String,
    /// Where and when a respawn takes place.
    pub spawn: SpawnSeed,
}

/// Chance as a mathematical value.
pub struct ChanceModel {
    pub roll: u32,
    pub loot_id: Seq<char>,
    pub spawn: SpawnSeed,
}

impl View for Chance {
    type V = ChanceModel;

    open spec fn view(&self) -> ChanceModel {
        ChanceModel { roll: self.roll, loot_id: self.loot_id@, spawn: self.spawn }
    }
}

/// The world after a message, and the reply to it.
pub struct Turn {
    pub world: WorldModel,
    pub reply: ReplyModel,
}

/// Whether `near` finds `loot` within reach of `pos`.
pub open spec fn reach_of<G: Fn(&Vector, &LootObject) -> bool>(
    near: &G,
    pos: Vector,
    loot: LootObject,
) -> bool {
    choose|within: bool| call_ensures(*near, (&pos, &loot), within)
}

/// `near` accepts every position and loot object and is a function of them.
pub open spec fn decisive<G: Fn(&Vector, &LootObject) -> bool>(near: &G) -> bool {
    &&& forall|pos: Vector, loot: LootObject| call_requires(*near, (&pos, &loot))
    &&& forall|pos: Vector, loot: LootObject, within: bool| #[trigger]
        call_ensures(*near, (&pos, &loot), within) ==> within == reach_of(near, pos, loot)
}

/// Whether a player of the given health may send `message`: a state query
/// always, a respawn only when dead, everything else only when alive.
pub open spec fn permitted(message: ClientMessageModel, health: u8) -> bool {
    match message {
        ClientMessageModel::StateQuery => true,
        ClientMessageModel::Spawn => health == 0,
        _ => health > 0,
    }
}

/// Decides whether a player of the given health may send `message`.
pub fn is_allowed(message: &ClientMessage, health: u8) -> (allowed: bool)
    ensures
        allowed == permitted(message@, health),
{
    match message {
        ClientMessage::StateQuery => true,
        ClientMessage::Spawn => health == 0,
        _ => health > 0,
    }
}

/// The living players among the first `n` clients, in order.
pub open spec fn living_prefix(clients: Seq<ClientModel>, n: nat) -> Seq<PlayerModel>
    decreases n,
{
    if n == 0 {
        Seq::<PlayerModel>::empty()
    } else {
        let rest = living_prefix(clients, (n - 1) as nat);
        let last = clients[n - 1].state;
        if last.trajectory.health > 0 {
            rest.push(last)
        } else {
            rest
        }
    }
}

/// A turn that sends nothing.
pub open spec fn silent(world: WorldModel, verdict: Verdict) -> Turn {
    Turn { world, reply: ReplyModel { verdict, outbound: None } }
}

/// A turn that answers one client.
pub open spec fn unicast(
    world: WorldModel,
    verdict: Verdict,
    to: Seq<char>,
    message: ServerMessageModel,
) -> Turn {
    Turn {
        world,
        reply: ReplyModel {
            verdict,
            outbound: Some(OutboundModel { to: RecipientModel::Only(to), message }),
        },
    }
}

/// A turn that is carried out and told to everyone.
pub open spec fn to_all(world: WorldModel, message: ServerMessageModel) -> Turn {
    Turn {
        world,
        reply: ReplyModel {
            verdict: Verdict::Done,
            outbound: Some(OutboundModel { to: RecipientModel::Everyone, message }),
        },
    }
}

impl WorldModel {
    /// Every client fast-forwarded to `now`, and the living among them
    /// reported to `sender` together with the loot that lies about.
    pub open spec fn queried<F: Fn(&Trajectory) -> Motion>(
        self,
        sender: Seq<char>,
        now: u64,
        physics: &F,
    ) -> Turn {
        let clients = self.clients.map_values(
            |c: ClientModel| ClientModel { state: c.state.arrived(physics, now), ..c },
        );
        unicast(
            WorldModel { clients, ..self },
            Verdict::Done,
            sender,
            ServerMessageModel::GameState {
                pstates: living_prefix(clients, clients.len()),
                worldloot: self.loot,
            },
        )
    }

    /// The world after the claimed victim was hit, and the victim as it is
    /// told to everyone.  A claim that names nobody, or somebody already
    /// dead, is dropped.  A victim who dies drops loot where death left it.
    pub open spec fn struck<F: Fn(&Trajectory) -> Motion>(
        self,
        victim: Option<VictimModel>,
        now: u64,
        chance: ChanceModel,
        physics: &F,
    ) -> (WorldModel, Option<VictimModel>) {
        match victim {
            None => (self, None),
            Some(v) => {
                if !self.knows(v.id) {
                    (self, None)
                } else {
                    let j = self.slot_of(v.id);
                    let target = self.clients[j].state;
                    if target.trajectory.health == 0 {
                        (self, None)
                    } else {
                        let hit = target.shot(physics, now);
                        let world = self.with_player(j, hit);
                        if hit.trajectory.health == 0 {
                            let drop = LootDropModel {
                                uuid: chance.loot_id,
                                object: LootObject {
                                    x: hit.trajectory.pos.x,
                                    y: hit.trajectory.pos.y,
                                    loot: loot_for_roll(chance.roll, hit.cash),
                                },
                            };
                            (world.with_loot(drop), Some(VictimModel { loot: Some(drop), ..v }))
                        } else {
                            (world, Some(VictimModel { loot: None, ..v }))
                        }
                    }
                }
            },
        }
    }

    /// The client at `i` shoots.
    pub open spec fn shot_by<F: Fn(&Trajectory) -> Motion>(
        self,
        i: int,
        sender: Seq<char>,
        info: ShootModel,
        now: u64,
        chance: ChanceModel,
        physics: &F,
    ) -> Turn {
        let shooter = self.clients[i].state;
        let slot = shooter.inventory.selection;
        if !shooter.inventory.weapons.contains_key(slot) {
            silent(self, Verdict::NoWeapon)
        } else if shooter.inventory.weapons[slot].ammo == 0 {
            silent(self, Verdict::OutOfAmmo)
        } else {
            let result = self.with_player(i, shooter.fired()).struck(
                info.victim,
                now,
                chance,
                physics,
            );
            to_all(
                result.0,
                ServerMessageModel::Shoot(
                    ShootModel { shooter: Some(sender), victim: result.1, ..info },
                ),
            )
        }
    }

    /// The client at `i` claims the loot that goes by `loot_id`.
    pub open spec fn claimed_by<F: Fn(&Trajectory) -> Motion, G: Fn(&Vector, &LootObject) -> bool>(
        self,
        i: int,
        sender: Seq<char>,
        loot_id: Seq<char>,
        now: u64,
        physics: &F,
        near: &G,
    ) -> Turn {
        if !self.has_loot(loot_id) {
            silent(self, Verdict::LootMissing)
        } else {
            let k = self.loot_slot_of(loot_id);
            let drop = self.loot[k];
            let arrived = self.clients[i].state.arrived(physics, now);
            let world = self.with_player(i, arrived);
            if !reach_of(near, arrived.trajectory.pos, drop.object) {
                unicast(
                    world,
                    Verdict::LootTooFar,
                    sender,
                    ServerMessageModel::LootReject(loot_id),
                )
            } else {
                to_all(
                    world.without_loot(k).with_player(i, arrived.collected(drop.object.loot)),
                    ServerMessageModel::LootCollected { loot_id, collector: sender },
                )
            }
        }
    }

    /// `sender` asks for the checkpoint of the player that goes by `id`.
    pub open spec fn corrected(self, sender: Seq<char>, id: Seq<char>) -> Turn {
        if self.knows(id) {
            unicast(
                self,
                Verdict::Done,
                sender,
                ServerMessageModel::Correct {
                    id,
                    tr: self.clients[self.slot_of(id)].state.trajectory.b64_text(),
                },
            )
        } else {
            silent(self, Verdict::UnknownPlayer)
        }
    }

    /// The client at `i` claims a change to its trajectory.
    pub open spec fn changed_by<F: Fn(&Trajectory) -> Motion>(
        self,
        i: int,
        sender: Seq<char>,
        change: UpdateTypeWrapper,
        at: Seq<char>,
        time: u64,
        now: u64,
        physics: &F,
    ) -> Turn {
        let before = self.clients[i].state;
        let after = before.reconciled(physics, change, at, time, now);
        let world = self.with_player(i, after);
        if before.can_change(physics, change, at, time, now) {
            to_all(world, ServerMessageModel::TrajectoryUpdate { change, time, at, from: sender })
        } else {
            unicast(
                world,
                Verdict::Rejected,
                sender,
                ServerMessageModel::Correct { id: sender, tr: after.trajectory.b64_text() },
            )
        }
    }

    /// What the world makes of `message` from `sender` at the time `now`.
    pub open spec fn dispatched<F: Fn(&Trajectory) -> Motion, G: Fn(&Vector, &LootObject) -> bool>(
        self,
        sender: Seq<char>,
        message: ClientMessageModel,
        now: u64,
        chance: ChanceModel,
        physics: &F,
        near: &G,
    ) -> Turn {
        if !self.knows(sender) {
            silent(self, Verdict::UnknownSender)
        } else {
            let i = self.slot_of(sender);
            let state = self.clients[i].state.refreshed(physics, now);
            let world = self.with_player(i, state);
            if !permitted(message, state.trajectory.health) {
                silent(world, Verdict::NotAllowed)
            } else {
                match message {
                    ClientMessageModel::Ping => unicast(
                        world,
                        Verdict::Done,
                        sender,
                        ServerMessageModel::Pong(now),
                    ),
                    ClientMessageModel::AckPong => silent(world, Verdict::Done),
                    ClientMessageModel::Spawn => {
                        let fresh = state.respawned(chance.spawn);
                        to_all(world.with_player(i, fresh), ServerMessageModel::PlayerJoin(fresh))
                    },
                    ClientMessageModel::TrajectoryUpdate { change, at, time } => world.changed_by(
                        i,
                        sender,
                        change,
                        at,
                        time,
                        now,
                        physics,
                    ),
                    ClientMessageModel::StateQuery => world.queried(sender, now, physics),
                    ClientMessageModel::ChangeSlot { slot } => silent(
                        world.with_player(
                            i,
                            PlayerModel {
                                inventory: InventoryModel { selection: slot, ..state.inventory },
                                ..state
                            },
                        ),
                        Verdict::Done,
                    ),
                    ClientMessageModel::Shoot(info) => world.shot_by(
                        i,
                        sender,
                        info,
                        now,
                        chance,
                        physics,
                    ),
                    ClientMessageModel::ClaimLoot { loot_id } => world.claimed_by(
                        i,
                        sender,
                        loot_id,
                        now,
                        physics,
                        near,
                    ),
                    ClientMessageModel::Correct(id) => world.corrected(sender, id),
                }
            }
        }
    }
}

impl World {
    /// Fast-forwards every client to `now` and reports the living among
    /// them, with the loot that lies about, to `sender`.
    fn query<F: Fn(&Trajectory) -> Motion>(&mut self, sender: &String, now: u64, physics: &F) -> (reply:
        Reply)
        requires
            deterministic(physics),
        ensures
            final(self)@ == old(self)@.queried(sender@, now, physics).world,
            reply@ == old(self)@.queried(sender@, now, physics).reply,
    {
        let ghost target = old(self)@.clients.map_values(
            |c: ClientModel| ClientModel { state: c.state.arrived(physics, now), ..c },
        );
        let mut pstates: Vec<PlayerState> = Vec::new();
        let mut i: usize = 0;
        while i < self.clients.len()
            invariant
                deterministic(physics),
                i <= self.clients.len(),
                self.clients.len() == old(self).clients.len(),
                self.loot == old(self).loot,
                target == old(self)@.clients.map_values(
                    |c: ClientModel| ClientModel { state: c.state.arrived(physics, now), ..c },
                ),
                forall|j: int| 0 <= j < i ==> self.clients[j]@ == target[j],
                forall|j: int| i <= j < self.clients.len() ==> self.clients[j]@ == old(self).clients[j]@,
                player_models(pstates@) == living_prefix(target, i as nat),
            decreases self.clients.len() - i,
        {
            self.clients[i].state.trajectory.advance_to_time(now, physics);
            let ghost before = pstates@;
            if self.clients[i].state.trajectory.health > 0 {
                let copy = self.clients[i].state.clone();
                pstates.push(copy);
                assert(player_models(pstates@) =~= player_models(before).push(copy@));
            }
            i = i + 1;
        }
        assert(self@.clients =~= target);
        let worldloot = self.loot_snapshot();
        Reply {
            verdict: Verdict::Done,
            outbound: Some(
                Outbound {
                    to: Recipient::Only(sender.clone()),
                    message: ServerMessage::GameState { pstates, worldloot },
                },
            ),
        }
    }
}

/// An optional victim as a mathematical value.
pub open spec fn victim_option_model(victim: Option<Victim>) -> Option<VictimModel> {
    match victim {
        Some(v) => Some(v@),
        None => None,
    }
}

impl World {
    /// Resolves the claimed victim of a shot.
    fn strike<F: Fn(&Trajectory) -> Motion>(
        &mut self,
        victim: Option<Victim>,
        now: u64,
        chance: &Chance,
        physics: &F,
    ) -> (resolved: Option<Victim>)
        requires
            deterministic(physics),
        ensures
            final(self)@ == old(self)@.struck(victim_option_model(victim), now, chance@, physics).0,
            victim_option_model(resolved) == old(self)@.struck(
                victim_option_model(victim),
                now,
                chance@,
                physics,
            ).1,
    {
        let v = match victim {
            None => {
                return None;
            },
            Some(v) => v,
        };
        let j = match self.find(&v.id) {
            None => {
                return None;
            },
            Some(j) => j,
        };
        if self.clients[j].state.trajectory.health == 0 {
            return None;
        }
        self.clients[j].state.take_bullet(now, physics);
        assert(self@.clients =~= old(self)@.with_player(
            j as int,
            old(self)@.clients[j as int].state.shot(physics, now),
        ).clients);
        if self.clients[j].state.trajectory.health == 0 {
            let drop = LootDrop {
                uuid: chance.loot_id.clone(),
                object: LootObject {
                    x: self.clients[j].state.trajectory.pos.x,
                    y: self.clients[j].state.trajectory.pos.y,
                    loot: loot_content(chance.roll, self.clients[j].state.cash),
                },
            };
            let told = drop.clone();
            self.put_loot(drop);
            Some(Victim { id: v.id, hash: v.hash, time: v.time, loot: Some(told) })
        } else {
            Some(Victim { id: v.id, hash: v.hash, time: v.time, loot: None })
        }
    }

    /// The client at `i` shoots.
    fn shoot<F: Fn(&Trajectory) -> Motion>(
        &mut self,
        i: usize,
        sender: &String,
        info: ShootInfo,
        now: u64,
        chance: &Chance,
        physics: &F,
    ) -> (reply: Reply)
        requires
            i < old(self).clients.len(),
            deterministic(physics),
        ensures
            final(self)@ == old(self)@.shot_by(i as int, sender@, info@, now, chance@, physics).world,
            reply@ == old(self)@.shot_by(i as int, sender@, info@, now, chance@, physics).reply,
    {
        let verdict = self.clients[i].state.fire();
        match verdict {
            Verdict::Done => {},
            _ => {
                assert(self@.clients =~= old(self)@.clients);
                return Reply { verdict, outbound: None };
            },
        }
        assert(self@.clients =~= old(self)@.with_player(
            i as int,
            old(self)@.clients[i as int].state.fired(),
        ).clients);
        let resolved = self.strike(info.victim, now, chance, physics);
        Reply {
            verdict: Verdict::Done,
            outbound: Some(
                Outbound {
                    to: Recipient::Everyone,
                    message: ServerMessage::Shoot(
                        ShootInfo {
                            at: info.at,
                            stime: info.stime,
                            shooter: Some(sender.clone()),
                            victim: resolved,
                        },
                    ),
                },
            ),
        }
    }

    /// The client at `i` claims the loot that goes by `loot_id`.
    fn claim<F: Fn(&Trajectory) -> Motion, G: Fn(&Vector, &LootObject) -> bool>(
        &mut self,
        i: usize,
        sender: &String,
        loot_id: String,
        now: u64,
        physics: &F,
        near: &G,
    ) -> (reply: Reply)
        requires
            i < old(self).clients.len(),
            deterministic(physics),
            decisive(near),
        ensures
            final(self)@ == old(self)@.claimed_by(i as int, sender@, loot_id@, now, physics, near).world,
            reply@ == old(self)@.claimed_by(i as int, sender@, loot_id@, now, physics, near).reply,
    {
        let k = match self.find_loot(&loot_id) {
            None => {
                return Reply { verdict: Verdict::LootMissing, outbound: None };
            },
            Some(k) => k,
        };
        let object = self.loot[k].object;
        self.clients[i].state.trajectory.advance_to_time(now, physics);
        let ghost arrived = old(self)@.clients[i as int].state.arrived(physics, now);
        assert(self@.clients =~= old(self)@.with_player(i as int, arrived).clients);
        let pos = self.clients[i].state.trajectory.pos;
        if !near(&pos, &object) {
            return Reply {
                verdict: Verdict::LootTooFar,
                outbound: Some(
                    Outbound {
                        to: Recipient::Only(sender.clone()),
                        message: ServerMessage::LootReject(loot_id),
                    },
                ),
            };
        }
        self.loot.remove(k);
        self.clients[i].state.collect(object.loot);
        assert(self@.loot =~= old(self)@.loot.remove(k as int));
        assert(self@.clients =~= old(self)@.with_player(i as int, arrived).without_loot(
            k as int,
        ).with_player(i as int, arrived.collected(object.loot)).clients);
        Reply {
            verdict: Verdict::Done,
            outbound: Some(
                Outbound {
                    to: Recipient::Everyone,
                    message: ServerMessage::LootCollected { loot_id, collector: sender.clone() },
                },
            ),
        }
    }

    /// `sender` asks for the checkpoint of the player that goes by `id`.
    fn correct(&self, sender: &String, id: String) -> (reply: Reply)
        ensures
            reply@ == self@.corrected(sender@, id@).reply,
    {
        match self.find(&id) {
            Some(j) => Reply {
                verdict: Verdict::Done,
                outbound: Some(
                    Outbound {
                        to: Recipient::Only(sender.clone()),
                        message: ServerMessage::Correct {
                            id,
                            tr: self.clients[j].state.trajectory.to_b64(),
                        },
                    },
                ),
            },
            None => Reply { verdict: Verdict::UnknownPlayer, outbound: None },
        }
    }

    /// The client at `i` claims a change to its trajectory.
    fn change<F: Fn(&Trajectory) -> Motion>(
        &mut self,
        i: usize,
        sender: &String,
        change: UpdateTypeWrapper,
        at: String,
        time: u64,
        now: u64,
        physics: &F,
    ) -> (reply: Reply)
        requires
            i < old(self).clients.len(),
            deterministic(physics),
        ensures
            final(self)@ == old(self)@.changed_by(
                i as int,
                sender@,
                change,
                at@,
                time,
                now,
                physics,
            ).world,
            reply@ == old(self)@.changed_by(i as int, sender@, change, at@, time, now, physics).reply,
    {
        let accepted = self.clients[i].state.reconcile(change, &at, time, now, physics);
        assert(self@.clients =~= old(self)@.with_player(
            i as int,
            old(self)@.clients[i as int].state.reconciled(physics, change, at@, time, now),
        ).clients);
        if accepted {
            Reply {
                verdict: Verdict::Done,
                outbound: Some(
                    Outbound {
                        to: Recipient::Everyone,
                        message: ServerMessage::TrajectoryUpdate {
                            change,
                            time,
                            at,
                            from: sender.clone(),
                        },
                    },
                ),
            }
        } else {
            Reply {
                verdict: Verdict::Rejected,
                outbound: Some(
                    Outbound {
                        to: Recipient::Only(sender.clone()),
                        message: ServerMessage::Correct {
                            id: sender.clone(),
                            tr: self.clients[i].state.trajectory.to_b64(),
                        },
                    },
                ),
            }
        }
    }

    /// Handles one message of the client that goes by `sender`, at the
    /// server time `now`.  `chance` is used where a player respawns or a
    /// victim drops loot; `physics` computes the motion of one step and
    /// `near` decides whether loot lies within reach of a position.
    pub fn dispatch<F: Fn(&Trajectory) -> Motion, G: Fn(&Vector, &LootObject) -> bool>(
        &mut self,
        sender: &String,
        message: ClientMessage,
        now: u64,
        chance: &Chance,
        physics: &F,
        near: &G,
    ) -> (reply: Reply)
        requires
            deterministic(physics),
            decisive(near),
        ensures
            final(self)@ == old(self)@.dispatched(sender@, message@, now, chance@, physics, near).world,
            reply@ == old(self)@.dispatched(sender@, message@, now, chance@, physics, near).reply,
            old(self)@.wf() ==> final(self)@.wf(),
    {
        proof {
            if old(self)@.wf() {
                law_dispatch_keeps_wf(old(self)@, sender@, message@, now, chance@, physics, near);
            }
        }
        let i = match self.find(sender) {
            None => {
                return Reply { verdict: Verdict::UnknownSender, outbound: None };
            },
            Some(i) => i,
        };
        self.clients[i].state.refresh(now, physics);
        let ghost state = old(self)@.clients[i as int].state.refreshed(physics, now);
        let ghost world = old(self)@.with_player(i as int, state);
        assert(self@.clients =~= world.clients);
        assert(self@ == world);
        if !is_allowed(&message, self.clients[i].state.trajectory.health) {
            return Reply { verdict: Verdict::NotAllowed, outbound: None };
        }
        match message {
            ClientMessage::Ping => Reply {
                verdict: Verdict::Done,
                outbound: Some(
                    Outbound { to: Recipient::Only(sender.clone()), message: ServerMessage::Pong(now) },
                ),
            },
            ClientMessage::AckPong => Reply { verdict: Verdict::Done, outbound: None },
            ClientMessage::Spawn => {
                spawn_from_prev(&mut self.clients[i].state, &chance.spawn);
                let joined = self.clients[i].state.clone();
                assert(self@.clients =~= world.with_player(
                    i as int,
                    state.respawned(chance.spawn),
                ).clients);
                Reply {
                    verdict: Verdict::Done,
                    outbound: Some(
                        Outbound {
                            to: Recipient::Everyone,
                            message: ServerMessage::PlayerJoin(joined),
                        },
                    ),
                }
            },
            ClientMessage::TrajectoryUpdate { change, at, time } => self.change(
                i,
                sender,
                change,
                at,
                time,
                now,
                physics,
            ),
            ClientMessage::StateQuery => self.query(sender, now, physics),
            ClientMessage::ChangeSlot { slot } => {
                self.clients[i].state.change_slot(slot);
                assert(self@.clients =~= world.with_player(
                    i as int,
                    PlayerModel {
                        inventory: InventoryModel { selection: slot, ..state.inventory },
                        ..state
                    },
                ).clients);
                Reply { verdict: Verdict::Done, outbound: None }
            },
            ClientMessage::Shoot(info) => self.shoot(i, sender, info, now, chance, physics),
            ClientMessage::ClaimLoot { loot_id } => self.claim(i, sender, loot_id, now, physics, near),
            ClientMessage::Correct(id) => self.correct(sender, id),
        }
    }
}

/// Handles one message like `World::dispatch`, and draws what chance has to
/// contribute: for a shot, one of the `LOOT_ROLLS` rolls and a fresh
/// identifier, 32 hexadecimal digits, for loot that may drop.  The place and
/// time of a respawn are given.
pub fn handle_game_message<F: Fn(&Trajectory) -> Motion, G: Fn(&Vector, &LootObject) -> bool>(
    world: &mut World,
    public_id: String,
    message: ClientMessage,
    now: u64,
    spawn: SpawnSeed,
    physics: &F,
    near: &G,
) -> (reply: Reply)
    requires
        deterministic(physics),
        decisive(near),
    ensures
        old(world)@.wf() ==> final(world)@.wf(),
        exists|chance: ChanceModel|
            {
                &&& chance.roll < LOOT_ROLLS
                &&& chance.spawn == spawn
                &&& message is Shoot ==> chance.loot_id.len() == SIMPLE_LEN && forall|i: int|
                    0 <= i < chance.loot_id.len() ==> is_lower_hex(#[trigger] chance.loot_id[i])
                &&& final(world)@ == #[trigger] old(world)@.dispatched(
                    public_id@,
                    message@,
                    now,
                    chance,
                    physics,
                    near,
                ).world
                &&& reply@ == old(world)@.dispatched(
                    public_id@,
                    message@,
                    now,
                    chance,
                    physics,
                    near,
                ).reply
            },
{
    let chance = match &message {
        ClientMessage::Shoot(_) => {
            let mut rng = entropy_rng();
            Chance { roll: roll_of(&mut rng, LOOT_ROLLS), loot_id: fresh_id(), spawn }
        },
        _ => Chance { roll: 0, loot_id: String::new(), spawn },
    };
    world.dispatch(&public_id, message, now, &chance, physics, near)
}

/// A loot object is claimed at most once: where a claim succeeds, the loot
/// is gone from the world, exactly one loot object fewer lies about, the
/// claimant is credited once, and any later claim of the same identifier, by
/// whomever, finds nothing and changes nothing.
pub proof fn law_loot_claimed_once<F: Fn(&Trajectory) -> Motion, G: Fn(&Vector, &LootObject) -> bool>(
    world: WorldModel,
    i: int,
    sender: Seq<char>,
    j: int,
    other: Seq<char>,
    loot_id: Seq<char>,
    now: u64,
    later: u64,
    physics: &F,
    near: &G,
)
    requires
        world.wf(),
        0 <= i < world.clients.len(),
        0 <= j < world.clients.len(),
    ensures
        ({
            let first = world.claimed_by(i, sender, loot_id, now, physics, near);
            let second = first.world.claimed_by(j, other, loot_id, later, physics, near);
            first.reply.verdict == Verdict::Done ==> {
                &&& world.has_loot(loot_id)
                &&& !first.world.has_loot(loot_id)
                &&& first.world.loot.len() == world.loot.len() - 1
                &&& first.world.clients[i].state == world.clients[i].state.arrived(
                    physics,
                    now,
                ).collected(world.loot[world.loot_slot_of(loot_id)].object.loot)
                &&& second == silent(first.world, Verdict::LootMissing)
            }
        }),
{
    let first = world.claimed_by(i, sender, loot_id, now, physics, near);
    if first.reply.verdict == Verdict::Done {
        let k = world.loot_slot_of(loot_id);
        lemma_loot_slot_of(world, loot_id);
        assert(first.world.loot == world.loot.remove(k));
        assert forall|m: int| 0 <= m < first.world.loot.len() implies first.world.loot[m].uuid
            != loot_id by {
            if m < k {
                assert(first.world.loot[m] == world.loot[m]);
            } else {
                assert(first.world.loot[m] == world.loot[m + 1]);
            }
        }
    }
}

/// A rejected claim leaves the loot where it lies.
pub proof fn law_rejected_claim_keeps_loot<
    F: Fn(&Trajectory) -> Motion,
    G: Fn(&Vector, &LootObject) -> bool,
>(
    world: WorldModel,
    i: int,
    sender: Seq<char>,
    loot_id: Seq<char>,
    now: u64,
    physics: &F,
    near: &G,
)
    requires
        0 <= i < world.clients.len(),
    ensures
        ({
            let turn = world.claimed_by(i, sender, loot_id, now, physics, near);
            turn.reply.verdict != Verdict::Done ==> turn.world.loot == world.loot
        }),
{
}

/// Handling a message keeps the world well formed: no two clients come to
/// share an identifier, and no two loot objects do.
pub proof fn law_dispatch_keeps_wf<F: Fn(&Trajectory) -> Motion, G: Fn(&Vector, &LootObject) -> bool>(
    world: WorldModel,
    sender: Seq<char>,
    message: ClientMessageModel,
    now: u64,
    chance: ChanceModel,
    physics: &F,
    near: &G,
)
    requires
        world.wf(),
    ensures
        world.dispatched(sender, message, now, chance, physics, near).world.wf(),
{
    if world.knows(sender) {
        lemma_slot_of(world, sender);
        let i = world.slot_of(sender);
        let state = world.clients[i].state.refreshed(physics, now);
        let w1 = world.with_player(i, state);
        lemma_with_player_wf(world, i, state);
        if permitted(message, state.trajectory.health) {
            match message {
                ClientMessageModel::Spawn => {
                    lemma_with_player_wf(w1, i, state.respawned(chance.spawn));
                },
                ClientMessageModel::TrajectoryUpdate { change, at, time } => {
                    lemma_with_player_wf(w1, i, state.reconciled(physics, change, at, time, now));
                },
                ClientMessageModel::StateQuery => {
                    let after = w1.queried(sender, now, physics).world;
                    assert forall|a: int, b: int| 0 <= a < b < after.clients.len() implies after.clients[a].state.id
                        != after.clients[b].state.id by {
                        assert(after.clients[a].state.id == w1.clients[a].state.id);
                        assert(after.clients[b].state.id == w1.clients[b].state.id);
                    }
                },
                ClientMessageModel::ChangeSlot { slot } => {
                    lemma_with_player_wf(
                        w1,
                        i,
                        PlayerModel {
                            inventory: InventoryModel { selection: slot, ..state.inventory },
                            ..state
                        },
                    );
                },
                ClientMessageModel::Shoot(info) => {
                    let slot = state.inventory.selection;
                    if state.inventory.weapons.contains_key(slot) && state.inventory.weapons[slot].ammo
                        != 0 {
                        let w2 = w1.with_player(i, state.fired());
                        lemma_with_player_wf(w1, i, state.fired());
                        lemma_struck_wf(w2, info.victim, now, chance, physics);
                    }
                },
                ClientMessageModel::ClaimLoot { loot_id } => {
                    if w1.has_loot(loot_id) {
                        lemma_loot_slot_of(w1, loot_id);
                        let k = w1.loot_slot_of(loot_id);
                        let arrived = state.arrived(physics, now);
                        let w2 = w1.with_player(i, arrived);
                        lemma_with_player_wf(w1, i, arrived);
                        lemma_without_loot_wf(w2, k);
                        lemma_with_player_wf(
                            w2.without_loot(k),
                            i,
                            arrived.collected(w1.loot[k].object.loot),
                        );
                    }
                },
                _ => {},
            }
        }
    }
}

/// Resolving the victim of a shot keeps the world well formed.
pub proof fn lemma_struck_wf<F: Fn(&Trajectory) -> Motion>(
    world: WorldModel,
    victim: Option<VictimModel>,
    now: u64,
    chance: ChanceModel,
    physics: &F,
)
    requires
        world.wf(),
    ensures
        world.struck(victim, now, chance, physics).0.wf(),
{
    match victim {
        None => {},
        Some(v) => {
            if world.knows(v.id) {
                lemma_slot_of(world, v.id);
                let j = world.slot_of(v.id);
                let target = world.clients[j].state;
                if target.trajectory.health != 0 {
                    let hit = target.shot(physics, now);
                    lemma_with_player_wf(world, j, hit);
                    if hit.trajectory.health == 0 {
                        let drop = LootDropModel {
                            uuid: chance.loot_id,
                            object: LootObject {
                                x: hit.trajectory.pos.x,
                                y: hit.trajectory.pos.y,
                                loot: loot_for_roll(chance.roll, hit.cash),
                            },
                        };
                        lemma_with_loot_wf(world.with_player(j, hit), drop);
                    }
                }
            }
        },
    }
}

} // verus!
