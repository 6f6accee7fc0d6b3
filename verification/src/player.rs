//! What a message does to one player.

use crate::gameobjects::{InventoryModel, LootContent, PlayerModel, PlayerState, Weapon};
use crate::handler::{default_player, SpawnSeed};
use crate::shop::{cost_of, get_cost};
use crate::trajectory::{
    deterministic, Motion, Trajectory, UpdateType, UpdateTypeWrapper, MAX_TIME_BEFORE,
};
use crate::game::Verdict;
use vstd::prelude::*;

verus! {

/// Damage of one bullet.
pub const BULLET_DAMAGE: u8 = 25;

/// How far past the server clock a killed player is fast-forwarded, in
/// milliseconds, before loot is dropped at the position reached.
pub const DEATH_DRIFT_MILLIS: u64 = 5000;

/// Ammunition in a dropped ammunition pack.
pub const LOOT_AMMO: u32 = 15;

/// Healing in a dropped health pack.
pub const LOOT_HEALTH: u8 = 30;

/// Number of equally likely rolls from which the content of dropped loot is
/// picked.
pub const LOOT_ROLLS: u32 = 100;

/// The content of the loot a killed player drops.  Of the 100 rolls below
/// `LOOT_ROLLS`, 25 each give half the victim's cash, ammunition, health
/// and a speed boost; a roll beyond them counts as the last.
pub open spec fn loot_for_roll(roll: u32, cash: u32) -> LootContent {
    if roll < 25 {
        LootContent::Cash(cash / 2)
    } else if roll < 50 {
        LootContent::PistolAmmo(LOOT_AMMO)
    } else if roll < 75 {
        LootContent::Health(LOOT_HEALTH)
    } else {
        LootContent::SpeedBoost
    }
}

/// The rolls below `LOOT_ROLLS` for which dropped loot is of the same kind
/// as `content`.
pub open spec fn rolls_giving(content: LootContent) -> Set<int> {
    Set::new(
        |roll: int|
            0 <= roll < LOOT_ROLLS && (match (loot_for_roll(roll as u32, 0), content) {
                (LootContent::Cash(_), LootContent::Cash(_)) => true,
                (LootContent::PistolAmmo(_), LootContent::PistolAmmo(_)) => true,
                (LootContent::Health(_), LootContent::Health(_)) => true,
                (LootContent::SpeedBoost, LootContent::SpeedBoost) => true,
                _ => false,
            }),
    )
}

/// `a + b`, stopping at the largest 32-bit number.
pub open spec fn capped_sum(a: u32, b: u32) -> u32 {
    if a + b <= u32::MAX {
        (a + b) as u32
    } else {
        u32::MAX
    }
}

/// The latest time to which a killed player drifts on.
pub open spec fn drift_target(now: u64) -> u64 {
    if now + DEATH_DRIFT_MILLIS <= u64::MAX {
        (now + DEATH_DRIFT_MILLIS) as u64
    } else {
        u64::MAX
    }
}

/// The event of being hit by one bullet.
pub open spec fn bullet() -> UpdateTypeWrapper {
    UpdateTypeWrapper { utype: UpdateType::Bullet, value: Some(BULLET_DAMAGE) }
}

impl PlayerModel {
    /// The player with another trajectory.
    pub open spec fn with_trajectory(self, trajectory: Trajectory) -> PlayerModel {
        PlayerModel { trajectory, ..self }
    }

    /// The player whose trajectory, where it lags behind the oldest time a
    /// claimed change may name, is fast-forwarded to that time.
    pub open spec fn refreshed<F: Fn(&Trajectory) -> Motion>(self, physics: &F, now: u64) -> PlayerModel {
        if now >= MAX_TIME_BEFORE && self.trajectory.time < now - MAX_TIME_BEFORE {
            self.with_trajectory(self.trajectory.at_time(physics, (now - MAX_TIME_BEFORE) as u64))
        } else {
            self
        }
    }

    /// The player with the trajectory fast-forwarded to `now`.
    pub open spec fn arrived<F: Fn(&Trajectory) -> Motion>(self, physics: &F, now: u64) -> PlayerModel {
        self.with_trajectory(self.trajectory.at_time(physics, now))
    }

    /// The player after a respawn: name, identifier and color stay.
    pub open spec fn respawned(self, seed: SpawnSeed) -> PlayerModel {
        PlayerModel { name: self.name, id: self.id, color: self.color, ..default_player(seed) }
    }

    /// Whether the claimed change passes every check.
    pub open spec fn can_change<F: Fn(&Trajectory) -> Motion>(
        self,
        physics: &F,
        change: UpdateTypeWrapper,
        at: Seq<char>,
        time: u64,
        now: u64,
    ) -> bool {
        &&& self.cash >= cost_of(change.utype)
        &&& self.trajectory.accepts(physics, change, at, time, now)
    }

    /// The player after a claimed change was handled.  An accepted change
    /// is paid for and applied at its own time.  A change that the player
    /// cannot pay for, or that does not fit, is turned down before anything
    /// is touched; one that fails reconciliation leaves what reconciliation
    /// left.  After any rejection the trajectory is fast-forwarded to `now`.
    pub open spec fn reconciled<F: Fn(&Trajectory) -> Motion>(
        self,
        physics: &F,
        change: UpdateTypeWrapper,
        at: Seq<char>,
        time: u64,
        now: u64,
    ) -> PlayerModel {
        if self.cash < cost_of(change.utype) || !self.trajectory.admits(change) {
            self.with_trajectory(self.trajectory.at_time(physics, now))
        } else if self.trajectory.accepts(physics, change, at, time, now) {
            PlayerModel {
                cash: (self.cash - cost_of(change.utype)) as u32,
                trajectory: self.trajectory.updated(physics, change, at, time, now),
                ..self
            }
        } else {
            self.with_trajectory(
                self.trajectory.updated(physics, change, at, time, now).at_time(physics, now),
            )
        }
    }

    /// The player with one round less in the selected weapon.
    pub open spec fn fired(self) -> PlayerModel {
        let slot = self.inventory.selection;
        let weapon = self.inventory.weapons[slot];
        PlayerModel {
            inventory: InventoryModel {
                weapons: self.inventory.weapons.insert(
                    slot,
                    Weapon { ammo: (weapon.ammo - 1) as u32, ..weapon },
                ),
                ..self.inventory
            },
            ..self
        }
    }

    /// The player after one bullet: damaged, and where that kills, drifted
    /// on to `drift_target(now)`.
    pub open spec fn shot<F: Fn(&Trajectory) -> Motion>(self, physics: &F, now: u64) -> PlayerModel {
        let hit = self.trajectory.changed(bullet());
        if hit.health == 0 {
            self.with_trajectory(hit.at_time(physics, drift_target(now)))
        } else {
            self.with_trajectory(hit)
        }
    }

    /// The player after picking up `content`.  Ammunition goes to the weapon
    /// in the selected slot, if there is one; a speed boost has no effect.
    pub open spec fn collected(self, content: LootContent) -> PlayerModel {
        match content {
            LootContent::Cash(amount) => PlayerModel {
                cash: capped_sum(self.cash, amount),
                ..self
            },
            LootContent::PistolAmmo(amount) => {
                let slot = self.inventory.selection;
                if self.inventory.weapons.contains_key(slot) {
                    let weapon = self.inventory.weapons[slot];
                    PlayerModel {
                        inventory: InventoryModel {
                            weapons: self.inventory.weapons.insert(
                                slot,
                                Weapon { ammo: capped_sum(weapon.ammo, amount), ..weapon },
                            ),
                            ..self.inventory
                        },
                        ..self
                    }
                } else {
                    self
                }
            },
            LootContent::Health(health) => self.with_trajectory(
                self.trajectory.changed(
                    UpdateTypeWrapper { utype: UpdateType::Health, value: Some(health) },
                ),
            ),
            LootContent::SpeedBoost => self,
        }
    }
}

impl PlayerState {
    /// Fast-forwards a trajectory that lags behind the oldest time a claimed
    /// change may name.
    pub fn refresh<F: Fn(&Trajectory) -> Motion>(&mut self, now: u64, physics: &F)
        requires
            deterministic(physics),
        ensures
            final(self)@ == old(self)@.refreshed(physics, now),
    {
        if now >= MAX_TIME_BEFORE && self.trajectory.time < now - MAX_TIME_BEFORE {
            self.trajectory.advance_to_min_time(now, physics);
        }
    }

    /// Handles a change that the player claims to have made at `time`, on
    /// a trajectory with checkpoint `at`.  Reports whether it was accepted.
    pub fn reconcile<F: Fn(&Trajectory) -> Motion>(
        &mut self,
        change: UpdateTypeWrapper,
        at: &String,
        time: u64,
        now: u64,
        physics: &F,
    ) -> (accepted: bool)
        requires
            deterministic(physics),
        ensures
            accepted == old(self)@.can_change(physics, change, at@, time, now),
            final(self)@ == old(self)@.reconciled(physics, change, at@, time, now),
    {
        let cost = get_cost(change.utype);
        let fits = match change.utype {
            UpdateType::AddBoost => self.trajectory.boosters < u8::MAX,
            _ => true,
        };
        if self.cash < cost || !fits {
            self.trajectory.advance_to_time(now, physics);
            return false;
        }
        let accepted = self.trajectory.update(change, at.clone(), time, now, physics);
        if accepted {
            self.cash = self.cash - cost;
        } else {
            self.trajectory.advance_to_time(now, physics);
        }
        accepted
    }

    /// Selects another slot.
    pub fn change_slot(&mut self, slot: u8)
        ensures
            final(self)@ == (PlayerModel {
                inventory: InventoryModel { selection: slot, ..old(self)@.inventory },
                ..old(self)@
            }),
    {
        if self.inventory.selection != slot {
            self.inventory.selection = slot;
        }
    }

    /// Spends one round of the selected weapon, if there is a weapon in the
    /// selected slot and it has a round left.
    pub fn fire(&mut self) -> (verdict: Verdict)
        ensures
            verdict == if !old(self)@.inventory.weapons.contains_key(old(self)@.inventory.selection) {
                Verdict::NoWeapon
            } else if old(self)@.inventory.weapons[old(self)@.inventory.selection].ammo == 0 {
                Verdict::OutOfAmmo
            } else {
                Verdict::Done
            },
            final(self)@ == if verdict == Verdict::Done {
                old(self)@.fired()
            } else {
                old(self)@
            },
    {
        let slot = self.inventory.selection;
        let weapon = match self.inventory.weapons.get(&slot) {
            Some(weapon) => *weapon,
            None => {
                return Verdict::NoWeapon;
            },
        };
        if weapon.ammo == 0 {
            return Verdict::OutOfAmmo;
        }
        self.inventory.weapons.insert(slot, Weapon { weptype: weapon.weptype, ammo: weapon.ammo - 1 });
        Verdict::Done
    }

    /// Takes one bullet.
    pub fn take_bullet<F: Fn(&Trajectory) -> Motion>(&mut self, now: u64, physics: &F)
        requires
            deterministic(physics),
        ensures
            final(self)@ == old(self)@.shot(physics, now),
    {
        self.trajectory.apply_change(
            UpdateTypeWrapper { utype: UpdateType::Bullet, value: Some(BULLET_DAMAGE) },
        );
        if self.trajectory.health == 0 {
            let target = now.saturating_add(DEATH_DRIFT_MILLIS);
            let _ = self.trajectory.advance(target, physics);
        }
    }

    /// Picks up loot of the given content.
    pub fn collect(&mut self, content: LootContent)
        ensures
            final(self)@ == old(self)@.collected(content),
    {
        match content {
            LootContent::Cash(amount) => {
                self.cash = self.cash.saturating_add(amount);
            },
            LootContent::PistolAmmo(amount) => {
                let slot = self.inventory.selection;
                let found = match self.inventory.weapons.get(&slot) {
                    Some(weapon) => Some(*weapon),
                    None => None,
                };
                if let Some(weapon) = found {
                    self.inventory.weapons.insert(
                        slot,
                        Weapon { weptype: weapon.weptype, ammo: weapon.ammo.saturating_add(amount) },
                    );
                }
            },
            LootContent::Health(health) => {
                self.trajectory.apply_change(
                    UpdateTypeWrapper { utype: UpdateType::Health, value: Some(health) },
                );
            },
            LootContent::SpeedBoost => {},
        }
    }
}

/// Picks the content of dropped loot from a roll.
pub fn loot_content(roll: u32, cash: u32) -> (content: LootContent)
    ensures
        content == loot_for_roll(roll, cash),
{
    if roll < 25 {
        LootContent::Cash(cash / 2)
    } else if roll < 50 {
        LootContent::PistolAmmo(LOOT_AMMO)
    } else if roll < 75 {
        LootContent::Health(LOOT_HEALTH)
    } else {
        LootContent::SpeedBoost
    }
}

/// A player killed by a bullet rests where the bullet found it: the drift
/// that follows finds the trajectory frozen.  A player who survives is not
/// moved either.
pub proof fn law_shot_player_rests<F: Fn(&Trajectory) -> Motion>(
    player: PlayerModel,
    physics: &F,
    now: u64,
)
    ensures
        player.shot(physics, now).trajectory == player.trajectory.changed(bullet()),
        player.shot(physics, now) == player.with_trajectory(player.trajectory.changed(bullet())),
{
    let hit = player.trajectory.changed(bullet());
    if hit.health == 0 {
        crate::trajectory::law_frozen_when_dead(
            hit,
            physics,
            crate::trajectory::steps_due(hit.time, drift_target(now)),
        );
    }
}

/// The loot table gives every kind of content the same weight: of the 100
/// rolls, 25 give cash, 25 ammunition, 25 health and 25 a speed boost.
pub proof fn law_loot_weights()
    ensures
        rolls_giving(LootContent::Cash(0)).len() == 25,
        rolls_giving(LootContent::PistolAmmo(0)).len() == 25,
        rolls_giving(LootContent::Health(0)).len() == 25,
        rolls_giving(LootContent::SpeedBoost).len() == 25,
        rolls_giving(LootContent::Cash(0)).len() + rolls_giving(LootContent::PistolAmmo(0)).len()
            + rolls_giving(LootContent::Health(0)).len() + rolls_giving(
            LootContent::SpeedBoost,
        ).len() == LOOT_ROLLS,
{
    vstd::set_lib::lemma_int_range(0, 25);
    vstd::set_lib::lemma_int_range(25, 50);
    vstd::set_lib::lemma_int_range(50, 75);
    vstd::set_lib::lemma_int_range(75, 100);
    assert(rolls_giving(LootContent::Cash(0)) =~= vstd::set_lib::set_int_range(0, 25));
    assert(rolls_giving(LootContent::PistolAmmo(0)) =~= vstd::set_lib::set_int_range(25, 50));
    assert(rolls_giving(LootContent::Health(0)) =~= vstd::set_lib::set_int_range(50, 75));
    assert(rolls_giving(LootContent::SpeedBoost) =~= vstd::set_lib::set_int_range(75, 100));
}

} // verus!
