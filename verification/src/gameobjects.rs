//! Players, their belongings, loot, and the messages that travel between
//! client and server.

use crate::trajectory::{Trajectory, UpdateTypeWrapper};
use std::collections::HashMap;
use vstd::prelude::*;

verus! {

/// What a loot object holds.
#[derive(Clone, Copy, Debug, PartialEq, Eq, Structural)]
pub enum LootContent {
    Cash(u32),
    PistolAmmo(u32),
    Health(u8),
    SpeedBoost,
}

/// A pickup lying in the world; coordinates are single-precision bit patterns.
#[derive(Clone, Copy, Debug, PartialEq, Eq, Structural)]
pub struct LootObject {
    pub x: u32,
    pub y: u32,
    pub loot: LootContent,
}

#[derive(Clone, Copy, Debug, PartialEq, Eq, Structural)]
pub struct Color {
    pub r: i32,
    pub g: i32,
    pub b: i32,
}

#[derive(Clone, Copy, Debug, PartialEq, Eq, Structural)]
pub enum WeaponType {
    Pistol,
    /// `press_time` is a single-precision bit pattern.
    Grenade { press_time: u32 },
}

#[derive(Clone, Copy, Debug, PartialEq, Eq, Structural)]
pub struct Weapon {
    pub weptype: WeaponType,
    pub ammo: u32,
}

/// The weapons of a player by slot, and the slot in use.
#[derive(Debug)]
pub struct Inventory {
    pub selection: u8,
    pub weapons: HashMap<u8, Weapon>,
}

/// An inventory as a mathematical value.
pub struct InventoryModel {
    pub selection: u8,
    pub weapons: Map<u8, Weapon>,
}

impl View for Inventory {
    type V = InventoryModel;

    open spec fn view(&self) -> InventoryModel {
        InventoryModel { selection: self.selection, weapons: self.weapons@ }
    }
}

impl Clone for Inventory {
    fn clone(&self) -> (copy: Self)
        ensures
            copy@ == self@,
    {
        Inventory { selection: self.selection, weapons: self.weapons.clone() }
    }
}

/// A loot object with the identifier it is known by.
#[derive(Debug)]
pub struct LootDrop {
    pub uuid: String,
    pub object: LootObject,
}

/// A loot drop as a mathematical value.
pub struct LootDropModel {
    pub uuid: Seq<char>,
    pub object: LootObject,
}

impl View for LootDrop {
    type V = LootDropModel;

    open spec fn view(&self) -> LootDropModel {
        LootDropModel { uuid: self.uuid@, object: self.object }
    }
}

impl Clone for LootDrop {
    fn clone(&self) -> (copy: Self)
        ensures
            copy@ == self@,
    {
        LootDrop { uuid: self.uuid.clone(), object: self.object }
    }
}

/// Everything the server knows of one player.
#[derive(Debug)]
pub struct PlayerState {
    pub name: String,
    pub id: String,
    pub cash: u32,
    pub fuel: u32,
    pub color: Color,
    pub inventory: Inventory,
    pub trigger_pressed: bool,
    pub trajectory: Trajectory,
}

/// A player as a mathematical value.
pub struct PlayerModel {
    pub name: Seq<char>,
    pub id: Seq<char>,
    pub cash: u32,
    pub fuel: u32,
    pub color: Color,
    pub inventory: InventoryModel,
    pub trigger_pressed: bool,
    pub trajectory: Trajectory,
}

impl View for PlayerState {
    type V = PlayerModel;

    open spec fn view(&self) -> PlayerModel {
        PlayerModel {
            name: self.name@,
            id: self.id@,
            cash: self.cash,
            fuel: self.fuel,
            color: self.color,
            inventory: self.inventory@,
            trigger_pressed: self.trigger_pressed,
            trajectory: self.trajectory,
        }
    }
}

impl Clone for PlayerState {
    fn clone(&self) -> (copy: Self)
        ensures
            copy@ == self@,
    {
        PlayerState {
            name: self.name.clone(),
            id: self.id.clone(),
            cash: self.cash,
            fuel: self.fuel,
            color: self.color,
            inventory: self.inventory.clone(),
            trigger_pressed: self.trigger_pressed,
            trajectory: self.trajectory,
        }
    }
}

/// The fields of a player that only the player may see.
#[derive(Debug)]
pub struct OwnFields {
    pub inventory: Inventory,
    pub cash: u32,
    pub health: u8,
}

/// A player as sent to one viewer.
#[derive(Debug)]
pub struct EncodedPlayer {
    pub name: String,
    pub id: String,
    pub color: Color,
    /// The checkpoint text of the player's trajectory.
    pub trajectory: String,
    /// Present only in the view that goes to the player.
    pub own: Option<OwnFields>,
}

/// The private fields as a mathematical value.
pub struct OwnModel {
    pub inventory: InventoryModel,
    pub cash: u32,
    pub health: u8,
}

/// An encoded player as a mathematical value.
pub struct EncodedModel {
    pub name: Seq<char>,
    pub id: Seq<char>,
    pub color: Color,
    pub trajectory: Seq<char>,
    pub own: Option<OwnModel>,
}

impl View for OwnFields {
    type V = OwnModel;

    open spec fn view(&self) -> OwnModel {
        OwnModel { inventory: self.inventory@, cash: self.cash, health: self.health }
    }
}

impl View for EncodedPlayer {
    type V = EncodedModel;

    open spec fn view(&self) -> EncodedModel {
        EncodedModel {
            name: self.name@,
            id: self.id@,
            color: self.color,
            trajectory: self.trajectory@,
            own: match self.own {
                Some(own) => Some(own@),
                None => None,
            },
        }
    }
}

impl PlayerModel {
    /// What every viewer may see: identity, color and trajectory.
    pub open spec fn encoded_other(self) -> EncodedModel {
        EncodedModel {
            name: self.name,
            id: self.id,
            color: self.color,
            trajectory: self.trajectory.b64_text(),
            own: None,
        }
    }

    /// The view for the player (`as_self`) or for anybody else.
    pub open spec fn encoded(self, as_self: bool) -> EncodedModel {
        if as_self {
            EncodedModel {
                own: Some(
                    OwnModel {
                        inventory: self.inventory,
                        cash: self.cash,
                        health: self.trajectory.health,
                    },
                ),
                ..self.encoded_other()
            }
        } else {
            self.encoded_other()
        }
    }
}

impl PlayerState {
    /// Encodes what every viewer may see.
    pub fn encode_other(&self) -> (e: EncodedPlayer)
        ensures
            e@ == self@.encoded_other(),
    {
        EncodedPlayer {
            name: self.name.clone(),
            id: self.id.clone(),
            color: self.color,
            trajectory: self.trajectory.to_b64(),
            own: None,
        }
    }

    /// Encodes the player for one viewer.  Inventory, cash and health are
    /// added for the player and for nobody else.
    pub fn encode(&self, as_self: bool) -> (e: EncodedPlayer)
        ensures
            e@ == self@.encoded(as_self),
    {
        let mut result = self.encode_other();
        if as_self {
            result.own = Some(
                OwnFields {
                    inventory: self.inventory.clone(),
                    cash: self.cash,
                    health: self.trajectory.health,
                },
            );
        }
        result
    }
}

/// The view for others holds none of the private fields, and the view for
/// the player is the view for others with exactly those fields added.
pub proof fn law_asymmetric_encoding(p: PlayerModel)
    ensures
        p.encoded(false).own is None,
        p.encoded(true).own == Some(
            OwnModel { inventory: p.inventory, cash: p.cash, health: p.trajectory.health },
        ),
        p.encoded(true) == (EncodedModel { own: p.encoded(true).own, ..p.encoded(false) }),
{
}

/// The player that a shot is claimed to have hit.
#[derive(Debug)]
pub struct Victim {
    pub id: String,
    pub hash: String,
    pub time: u64,
    /// Set by the server where the victim died and dropped loot.
    pub loot: Option<LootDrop>,
}

/// A shot: when and from which checkpoint it was fired, and by the time the
/// server passes it on, who fired it and who was hit.
#[derive(Debug)]
pub struct ShootInfo {
    pub at: String,
    pub stime: u64,
    pub shooter: Option<String>,
    pub victim: Option<Victim>,
}

/// What a client can ask of the server.
#[derive(Debug)]
pub enum ClientMessage {
    Ping,
    AckPong,
    TrajectoryUpdate { change: UpdateTypeWrapper, at: String, time: u64 },
    ChangeSlot { slot: u8 },
    ClaimLoot { loot_id: String },
    Correct(String),
    Shoot(ShootInfo),
    StateQuery,
    Spawn,
}

/// What the server tells its clients.
#[derive(Debug)]
pub enum ServerMessage {
    Pong(u64),
    PlayerJoin(PlayerState),
    PlayerLeave(String),
    HealthUpdate(u8),
    GameState { pstates: Vec<PlayerState>, worldloot: Vec<LootDrop> },
    TrajectoryUpdate { change: UpdateTypeWrapper, time: u64, at: String, from: String },
    Shoot(ShootInfo),
    PlayerDeath { loot: Option<LootDrop>, from: String },
    LootCollected { loot_id: String, collector: String },
    Correct { id: String, tr: String },
    LootReject(String),
}

/// A claimed victim as a mathematical value.
pub struct VictimModel {
    pub id: Seq<char>,
    pub hash: Seq<char>,
    pub time: u64,
    pub loot: Option<LootDropModel>,
}

/// A shot as a mathematical value.
pub struct ShootModel {
    pub at: Seq<char>,
    pub stime: u64,
    pub shooter: Option<Seq<char>>,
    pub victim: Option<VictimModel>,
}

/// A client's message as a mathematical value.
pub enum ClientMessageModel {
    Ping,
    AckPong,
    TrajectoryUpdate { change: UpdateTypeWrapper, at: Seq<char>, time: u64 },
    ChangeSlot { slot: u8 },
    ClaimLoot { loot_id: Seq<char> },
    Correct(Seq<char>),
    Shoot(ShootModel),
    StateQuery,
    Spawn,
}

/// A server's message as a mathematical value.
pub enum ServerMessageModel {
    Pong(u64),
    PlayerJoin(PlayerModel),
    PlayerLeave(Seq<char>),
    HealthUpdate(u8),
    GameState { pstates: Seq<PlayerModel>, worldloot: Seq<LootDropModel> },
    TrajectoryUpdate { change: UpdateTypeWrapper, time: u64, at: Seq<char>, from: Seq<char> },
    Shoot(ShootModel),
    PlayerDeath { loot: Option<LootDropModel>, from: Seq<char> },
    LootCollected { loot_id: Seq<char>, collector: Seq<char> },
    Correct { id: Seq<char>, tr: Seq<char> },
    LootReject(Seq<char>),
}

/// The players of a list as mathematical values.
pub open spec fn player_models(players: Seq<PlayerState>) -> Seq<PlayerModel> {
    players.map_values(|p: PlayerState| p@)
}

/// The loot drops of a list as mathematical values.
pub open spec fn loot_models(drops: Seq<LootDrop>) -> Seq<LootDropModel> {
    drops.map_values(|d: LootDrop| d@)
}

/// An optional loot drop as a mathematical value.
pub open spec fn loot_option_model(loot: Option<LootDrop>) -> Option<LootDropModel> {
    match loot {
        Some(drop) => Some(drop@),
        None => None,
    }
}

impl View for Victim {
    type V = VictimModel;

    open spec fn view(&self) -> VictimModel {
        VictimModel {
            id: self.id@,
            hash: self.hash@,
            time: self.time,
            loot: loot_option_model(self.loot),
        }
    }
}

impl View for ShootInfo {
    type V = ShootModel;

    open spec fn view(&self) -> ShootModel {
        ShootModel {
            at: self.at@,
            stime: self.stime,
            shooter: match self.shooter {
                Some(id) => Some(id@),
                None => None,
            },
            victim: match self.victim {
                Some(victim) => Some(victim@),
                None => None,
            },
        }
    }
}

impl View for ClientMessage {
    type V = ClientMessageModel;

    open spec fn view(&self) -> ClientMessageModel {
        match *self {
            ClientMessage::Ping => ClientMessageModel::Ping,
            ClientMessage::AckPong => ClientMessageModel::AckPong,
            ClientMessage::TrajectoryUpdate { change, at, time } => {
                ClientMessageModel::TrajectoryUpdate { change, at: at@, time }
            },
            ClientMessage::ChangeSlot { slot } => ClientMessageModel::ChangeSlot { slot },
            ClientMessage::ClaimLoot { loot_id } => ClientMessageModel::ClaimLoot {
                loot_id: loot_id@,
            },
            ClientMessage::Correct(id) => ClientMessageModel::Correct(id@),
            ClientMessage::Shoot(info) => ClientMessageModel::Shoot(info@),
            ClientMessage::StateQuery => ClientMessageModel::StateQuery,
            ClientMessage::Spawn => ClientMessageModel::Spawn,
        }
    }
}

impl View for ServerMessage {
    type V = ServerMessageModel;

    open spec fn view(&self) -> ServerMessageModel {
        match *self {
            ServerMessage::Pong(time) => ServerMessageModel::Pong(time),
            ServerMessage::PlayerJoin(state) => ServerMessageModel::PlayerJoin(state@),
            ServerMessage::PlayerLeave(id) => ServerMessageModel::PlayerLeave(id@),
            ServerMessage::HealthUpdate(health) => ServerMessageModel::HealthUpdate(health),
            ServerMessage::GameState { pstates, worldloot } => ServerMessageModel::GameState {
                pstates: player_models(pstates@),
                worldloot: loot_models(worldloot@),
            },
            ServerMessage::TrajectoryUpdate { change, time, at, from } => {
                ServerMessageModel::TrajectoryUpdate { change, time, at: at@, from: from@ }
            },
            ServerMessage::Shoot(info) => ServerMessageModel::Shoot(info@),
            ServerMessage::PlayerDeath { loot, from } => ServerMessageModel::PlayerDeath {
                loot: loot_option_model(loot),
                from: from@,
            },
            ServerMessage::LootCollected { loot_id, collector } => {
                ServerMessageModel::LootCollected { loot_id: loot_id@, collector: collector@ }
            },
            ServerMessage::Correct { id, tr } => ServerMessageModel::Correct { id: id@, tr: tr@ },
            ServerMessage::LootReject(id) => ServerMessageModel::LootReject(id@),
        }
    }
}

} // verus!
