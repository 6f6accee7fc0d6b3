//! What can be bought, and what a change to a trajectory costs.

use crate::trajectory::UpdateType;
use vstd::prelude::*;
use vstd::string::StringExecFns;

verus! {

#[derive(Clone, Copy, Debug, PartialEq, Eq, Structural)]
pub enum ShopItemId {
    MoreBoosters,
    Health,
    Ammunition,
}

/// One entry of the shop.
#[derive(Clone, Copy, Debug, PartialEq, Eq, Structural)]
pub struct ShopItem {
    pub id: ShopItemId,
    pub cost: u32,
}

/// The shop's entries, in display order.
pub open spec fn shop_items() -> Seq<ShopItem> {
    seq![
        ShopItem { id: ShopItemId::MoreBoosters, cost: 5 },
        ShopItem { id: ShopItemId::Health, cost: 10 },
        ShopItem { id: ShopItemId::Ammunition, cost: 10 },
    ]
}

/// The price of a change: a booster costs 5, everything else is free.
pub open spec fn cost_of(utype: UpdateType) -> u32 {
    if utype is AddBoost {
        5
    } else {
        0
    }
}

impl ShopItem {
    /// The name shown for the entry.
    pub open spec fn display_text(self) -> Seq<char> {
        match self.id {
            ShopItemId::MoreBoosters => "boost"@,
            ShopItemId::Health => "5 health"@,
            ShopItemId::Ammunition => "20 x ammo"@,
        }
    }

    /// Where the picture of the entry is found.
    pub open spec fn image_text(self) -> Seq<char> {
        match self.id {
            ShopItemId::MoreBoosters => "static/textures/gunshot.png"@,
            ShopItemId::Health => "static/textures/heart_increase.png"@,
            ShopItemId::Ammunition => "static/textures/pistol_ammo.png"@,
        }
    }

    pub fn display_name(&self) -> (name: String)
        ensures
            name@ == self.display_text(),
    {
        match self.id {
            ShopItemId::MoreBoosters => String::from_str("boost"),
            ShopItemId::Health => String::from_str("5 health"),
            ShopItemId::Ammunition => String::from_str("20 x ammo"),
        }
    }

    pub fn image_src(&self) -> (path: String)
        ensures
            path@ == self.image_text(),
    {
        match self.id {
            ShopItemId::MoreBoosters => String::from_str("static/textures/gunshot.png"),
            ShopItemId::Health => String::from_str("static/textures/heart_increase.png"),
            ShopItemId::Ammunition => String::from_str("static/textures/pistol_ammo.png"),
        }
    }
}

pub fn get_shop_items() -> (items: [ShopItem; 3])
    ensures
        items@ == shop_items(),
{
    let items = [
        ShopItem { id: ShopItemId::MoreBoosters, cost: 5 },
        ShopItem { id: ShopItemId::Health, cost: 10 },
        ShopItem { id: ShopItemId::Ammunition, cost: 10 },
    ];
    assert(items@ =~= shop_items());
    items
}

/// The entry at `index`, if there is one.
pub fn get_shop_item(index: usize) -> (item: Option<ShopItem>)
    ensures
        item == if index < shop_items().len() {
            Some(shop_items()[index as int])
        } else {
            None
        },
{
    let items = get_shop_items();
    if index >= 3 {
        return None;
    }
    Some(items[index])
}

pub fn num_shop_items() -> (n: usize)
    ensures
        n == shop_items().len(),
{
    3
}

pub fn get_cost(utype: UpdateType) -> (cost: u32)
    ensures
        cost == cost_of(utype),
{
    match utype {
        UpdateType::AddBoost => 5,
        _ => 0,
    }
}

} // verus!
