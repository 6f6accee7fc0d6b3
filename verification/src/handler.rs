//! Registration and respawn: how a player's state comes into being.

use crate::gameobjects::{
    Color, Inventory, InventoryModel, PlayerModel, PlayerState, Weapon, WeaponType,
};
use crate::world::World;
use crate::ident::{fresh_id, is_lower_hex, public_id_of, public_id_text, SIMPLE_LEN};
use crate::trajectory::{Trajectory, Vector};
use std::collections::HashMap;
use vstd::prelude::*;
use vstd::string::StringExecFns;

verus! {

/// The longest nickname accepted, in bytes.
pub const MAX_NICK_LEN: usize = 24;

/// The identity pair handed to a newly registered player.
#[derive(Debug)]
pub struct RegisterResponse {
    pub public: String,
    pub private: String,
}

/// What a player chooses at registration.
#[derive(Debug)]
pub struct UserSelections {
    pub nick: String,
    pub color: String,
}

/// What the moment of a spawn contributes: where the player appears, the
/// clock, and the clock as a single-precision bit pattern.
#[derive(Clone, Copy, Debug, PartialEq, Eq, Structural)]
pub struct SpawnSeed {
    pub pos: Vector,
    pub time: u64,
    pub press_time: u32,
}

/// The color that goes by `name`; white for every other name.
pub open spec fn color_named(name: Seq<char>) -> Color {
    if name == "red"@ {
        Color { r: 255, g: 0, b: 0 }
    } else if name == "orange"@ {
        Color { r: 255, g: 165, b: 0 }
    } else if name == "yellow"@ {
        Color { r: 255, g: 255, b: 0 }
    } else if name == "green"@ {
        Color { r: 0, g: 255, b: 0 }
    } else if name == "blue"@ {
        Color { r: 0, g: 0, b: 255 }
    } else {
        Color { r: 255, g: 255, b: 255 }
    }
}

/// The weapons every player starts with.
pub open spec fn starting_weapons(press_time: u32) -> Map<u8, Weapon> {
    Map::<u8, Weapon>::empty().insert(0u8, Weapon { weptype: WeaponType::Pistol, ammo: 50 }).insert(
        1u8,
        Weapon { weptype: WeaponType::Grenade { press_time }, ammo: 2 },
    )
}

/// A nameless player as every spawn starts out.
pub open spec fn default_player(seed: SpawnSeed) -> PlayerModel {
    PlayerModel {
        name: Seq::<char>::empty(),
        id: Seq::<char>::empty(),
        cash: 20,
        fuel: 100,
        color: Color { r: 255, g: 255, b: 255 },
        inventory: InventoryModel { selection: 0, weapons: starting_weapons(seed.press_time) },
        trigger_pressed: false,
        trajectory: Trajectory::newborn(seed.pos, seed.time),
    }
}

/// Whether `text` reads `literal`.
pub fn text_is(text: &String, literal: &str) -> (same: bool)
    ensures
        same == (text@ == literal@),
{
    let other = String::from_str(literal);
    *text == other
}

pub fn default_state(seed: &SpawnSeed) -> (state: PlayerState)
    ensures
        state@ == default_player(*seed),
{
    let mut weapons: HashMap<u8, Weapon> = HashMap::new();
    weapons.insert(0, Weapon { weptype: WeaponType::Pistol, ammo: 50 });
    weapons.insert(1, Weapon { weptype: WeaponType::Grenade { press_time: seed.press_time }, ammo: 2 });
    PlayerState {
        name: String::new(),
        id: String::new(),
        cash: 20,
        fuel: 100,
        color: Color { r: 255, g: 255, b: 255 },
        trigger_pressed: false,
        inventory: Inventory { selection: 0, weapons },
        trajectory: Trajectory::spawn(seed.pos, seed.time),
    }
}

/// The state of a player who registers with `selections` under `public_id`.
pub fn spawn_with_select(selections: &UserSelections, public_id: &String, seed: &SpawnSeed) -> (state:
    PlayerState)
    ensures
        state@ == (PlayerModel {
            name: selections.nick@,
            id: public_id@,
            color: color_named(selections.color@),
            ..default_player(*seed)
        }),
{
    let color = if text_is(&selections.color, "red") {
        Color { r: 255, g: 0, b: 0 }
    } else if text_is(&selections.color, "orange") {
        Color { r: 255, g: 165, b: 0 }
    } else if text_is(&selections.color, "yellow") {
        Color { r: 255, g: 255, b: 0 }
    } else if text_is(&selections.color, "green") {
        Color { r: 0, g: 255, b: 0 }
    } else if text_is(&selections.color, "blue") {
        Color { r: 0, g: 0, b: 255 }
    } else {
        Color { r: 255, g: 255, b: 255 }
    };
    let mut state = default_state(seed);
    state.name = selections.nick.clone();
    state.id = public_id.clone();
    state.color = color;
    state
}

/// Respawns a player: name, identifier and color stay, everything else
/// starts over.
pub fn spawn_from_prev(prev_state: &mut PlayerState, seed: &SpawnSeed)
    ensures
        final(prev_state)@ == (PlayerModel {
            name: old(prev_state)@.name,
            id: old(prev_state)@.id,
            color: old(prev_state)@.color,
            ..default_player(*seed)
        }),
{
    let mut state = default_state(seed);
    state.name = prev_state.name.clone();
    state.id = prev_state.id.clone();
    state.color = prev_state.color;
    *prev_state = state;
}

/// Whether a nickname is short enough to register: its length in bytes, as
/// the machine counts it, is at most `MAX_NICK_LEN`.
pub open spec fn nick_fits(nick: Seq<char>) -> bool {
    vstd::utf8::encode_utf8(nick).len() as usize <= MAX_NICK_LEN
}

/// Takes a player with the private identifier `private_id` into the world,
/// unless the nickname is too long.  The public identifier is derived from
/// the private one.
pub fn register_client(
    world: &mut World,
    private_id: String,
    selections: &UserSelections,
    seed: &SpawnSeed,
) -> (response: Option<RegisterResponse>)
    ensures
        old(world)@.wf() ==> final(world)@.wf(),
        response is Some <==> nick_fits(selections.nick@),
        !nick_fits(selections.nick@) ==> final(world)@ == old(world)@,
        response matches Some(r) ==> {
            &&& r.private@ == private_id@
            &&& r.public@ == public_id_text(private_id@)
            &&& final(world)@ == old(world)@.enrolled(
                PlayerModel {
                    name: selections.nick@,
                    id: r.public@,
                    color: color_named(selections.color@),
                    ..default_player(*seed)
                },
            )
        },
{
    if selections.nick.as_str().len() > MAX_NICK_LEN {
        return None;
    }
    let public_id = public_id_of(&private_id);
    world.enroll(spawn_with_select(selections, &public_id, seed));
    Some(RegisterResponse { public: public_id, private: private_id })
}

/// Registers a player under a fresh private identifier of 32 hexadecimal
/// digits.
pub fn register_handler(world: &mut World, selections: &UserSelections, seed: &SpawnSeed) -> (response:
    Option<RegisterResponse>)
    ensures
        old(world)@.wf() ==> final(world)@.wf(),
        response is Some <==> nick_fits(selections.nick@),
        !nick_fits(selections.nick@) ==> final(world)@ == old(world)@,
        response matches Some(r) ==> {
            &&& r.private@.len() == SIMPLE_LEN
            &&& forall|i: int| 0 <= i < r.private@.len() ==> is_lower_hex(#[trigger] r.private@[i])
            &&& r.public@ == public_id_text(r.private@)
            &&& final(world)@ == old(world)@.enrolled(
                PlayerModel {
                    name: selections.nick@,
                    id: r.public@,
                    color: color_named(selections.color@),
                    ..default_player(*seed)
                },
            )
        },
{
    register_client(world, fresh_id(), selections, seed)
}

/// Removes a player from the world.
pub fn unregister_handler(world: &mut World, public_id: &String)
    ensures
        final(world)@ == old(world)@.without_client(public_id@),
        old(world)@.wf() ==> final(world)@.wf(),
{
    world.unregister(public_id);
}

/// The public identifier of the player who presents `private_id`, if that
/// player is registered.
pub fn ws_handler(world: &World, private_id: &String) -> (public_id: Option<String>)
    ensures
        public_id is Some <==> world@.knows(public_id_text(private_id@)),
        public_id matches Some(id) ==> id@ == public_id_text(private_id@),
{
    let public_id = public_id_of(private_id);
    match world.find(&public_id) {
        Some(_) => Some(public_id),
        None => None,
    }
}

} // verus!
