//! Items as far as combat reads them, and what each is worth in a fight.

use vstd::prelude::*;

verus! {

/// What a sword is made of.
#[derive(Debug, Copy, Clone, PartialEq, Eq, Structural)]
pub enum SwordTier {
    Wooden,
    Golden,
    Stone,
    Iron,
    Diamond,
    Netherite,
}

/// What a piece of armor is made of.
#[derive(Debug, Copy, Clone, PartialEq, Eq, Structural)]
pub enum ArmorTier {
    Leather,
    Golden,
    Chainmail,
    Iron,
    Diamond,
    Netherite,
}

/// Where a piece of armor is worn.
#[derive(Debug, Copy, Clone, PartialEq, Eq, Structural)]
pub enum Piece {
    Helmet,
    Chestplate,
    Leggings,
    Boots,
}

/// The kind of an item, told apart only as far as combat cares.
#[derive(Debug, Copy, Clone, PartialEq, Eq, Structural)]
pub enum Item {
    Sword(SwordTier),
    WoodenPickaxe,
    Armor(ArmorTier, Piece),
    Other,
}

/// What a player holds and wears.
#[derive(Debug, Copy, Clone, PartialEq, Eq, Structural)]
pub struct Loadout {
    pub cursor: Item,
    pub helmet: Item,
    pub chestplate: Item,
    pub leggings: Item,
    pub boots: Item,
}

/// What a loadout adds to its bearer's combat statistics, in whole points.
#[derive(Debug, Copy, Clone, PartialEq, Eq, Structural)]
pub struct GearStats {
    pub armor: u32,
    pub armor_toughness: u32,
    pub damage: u32,
    pub protection: u32,
}

/// Attack damage of a held item: 1 for a bare hand or anything that is no
/// weapon.
pub open spec fn damage_points(item: Item) -> nat {
    match item {
        Item::Sword(SwordTier::Wooden) | Item::Sword(SwordTier::Golden) => 4,
        Item::Sword(SwordTier::Stone) => 5,
        Item::Sword(SwordTier::Iron) => 6,
        Item::Sword(SwordTier::Diamond) => 7,
        Item::Sword(SwordTier::Netherite) => 8,
        Item::WoodenPickaxe => 2,
        _ => 1,
    }
}

/// Armor points of a full set of one material: the four pieces of a set
/// always add up to this.
pub open spec fn set_points(tier: ArmorTier) -> nat {
    match tier {
        ArmorTier::Leather => 7,
        ArmorTier::Golden => 9,
        ArmorTier::Chainmail => 11,
        ArmorTier::Iron => 15,
        ArmorTier::Diamond | ArmorTier::Netherite => 20,
    }
}

/// Armor points of one piece.
pub open spec fn piece_points(tier: ArmorTier, piece: Piece) -> nat {
    match (tier, piece) {
        (ArmorTier::Leather, Piece::Helmet) => 1,
        (ArmorTier::Leather, Piece::Chestplate) => 3,
        (ArmorTier::Leather, Piece::Leggings) => 2,
        (ArmorTier::Leather, Piece::Boots) => 1,
        (ArmorTier::Golden, Piece::Helmet) => 1,
        (ArmorTier::Golden, Piece::Chestplate) => 5,
        (ArmorTier::Golden, Piece::Leggings) => 2,
        (ArmorTier::Golden, Piece::Boots) => 1,
        (ArmorTier::Chainmail, Piece::Helmet) => 1,
        (ArmorTier::Chainmail, Piece::Chestplate) => 5,
        (ArmorTier::Chainmail, Piece::Leggings) => 4,
        (ArmorTier::Chainmail, Piece::Boots) => 1,
        (ArmorTier::Iron, Piece::Helmet) => 2,
        (ArmorTier::Iron, Piece::Chestplate) => 6,
        (ArmorTier::Iron, Piece::Leggings) => 5,
        (ArmorTier::Iron, Piece::Boots) => 2,
        (_, Piece::Helmet) => 3,
        (_, Piece::Chestplate) => 8,
        (_, Piece::Leggings) => 6,
        (_, Piece::Boots) => 3,
    }
}

/// Armor points of an item: nothing for what is no armor.
pub open spec fn armor_points(item: Item) -> nat {
    match item {
        Item::Armor(tier, piece) => piece_points(tier, piece),
        _ => 0,
    }
}

/// Armor toughness of an item: only diamond and netherite armor has any.
pub open spec fn toughness_points(item: Item) -> nat {
    match item {
        Item::Armor(ArmorTier::Diamond, _) => 2,
        Item::Armor(ArmorTier::Netherite, _) => 3,
        _ => 0,
    }
}

/// What a loadout is worth: the damage of what is held, and the armor and
/// toughness of what is worn, slot by slot. Gear gives no protection.
pub open spec fn gear_stats(loadout: Loadout) -> GearStats {
    GearStats {
        armor: (armor_points(loadout.helmet) + armor_points(loadout.chestplate) + armor_points(
            loadout.leggings,
        ) + armor_points(loadout.boots)) as u32,
        armor_toughness: (toughness_points(loadout.helmet) + toughness_points(loadout.chestplate)
            + toughness_points(loadout.leggings) + toughness_points(loadout.boots)) as u32,
        damage: damage_points(loadout.cursor) as u32,
        protection: 0,
    }
}

/// A full set of one material, each piece in its own slot.
pub open spec fn full_set(tier: ArmorTier, cursor: Item) -> Loadout {
    Loadout {
        cursor,
        helmet: Item::Armor(tier, Piece::Helmet),
        chestplate: Item::Armor(tier, Piece::Chestplate),
        leggings: Item::Armor(tier, Piece::Leggings),
        boots: Item::Armor(tier, Piece::Boots),
    }
}

/// No item is worth more than 8 damage, 8 armor or 3 toughness, and a held
/// item always does at least 1 damage.
pub proof fn lemma_item_bounds(item: Item)
    ensures
        1 <= damage_points(item) <= 8,
        armor_points(item) <= 8,
        toughness_points(item) <= 3,
{
}

/// Worn piece by piece in its own slots, a set gives its set points, and
/// no set gives more than 20.
pub proof fn lemma_full_set(tier: ArmorTier, cursor: Item)
    ensures
        gear_stats(full_set(tier, cursor)).armor == set_points(tier),
        gear_stats(full_set(tier, cursor)).armor <= 20,
{
}

/// The attack damage of a held item.
pub fn calculate_damage(item: Item) -> (points: u32)
    ensures
        points == damage_points(item),
{
    match item {
        Item::Sword(SwordTier::Wooden) | Item::Sword(SwordTier::Golden) => 4,
        Item::Sword(SwordTier::Stone) => 5,
        Item::Sword(SwordTier::Iron) => 6,
        Item::Sword(SwordTier::Diamond) => 7,
        Item::Sword(SwordTier::Netherite) => 8,
        Item::WoodenPickaxe => 2,
        _ => 1,
    }
}

/// The armor points of an item.
pub fn calculate_armor(item: Item) -> (points: u32)
    ensures
        points == armor_points(item),
{
    match item {
        Item::Armor(ArmorTier::Leather, Piece::Helmet)
        | Item::Armor(ArmorTier::Leather, Piece::Boots)
        | Item::Armor(ArmorTier::Golden, Piece::Helmet)
        | Item::Armor(ArmorTier::Golden, Piece::Boots)
        | Item::Armor(ArmorTier::Chainmail, Piece::Helmet)
        | Item::Armor(ArmorTier::Chainmail, Piece::Boots) => 1,
        Item::Armor(ArmorTier::Leather, Piece::Leggings)
        | Item::Armor(ArmorTier::Golden, Piece::Leggings)
        | Item::Armor(ArmorTier::Iron, Piece::Helmet)
        | Item::Armor(ArmorTier::Iron, Piece::Boots) => 2,
        Item::Armor(ArmorTier::Leather, Piece::Chestplate)
        | Item::Armor(ArmorTier::Diamond, Piece::Helmet)
        | Item::Armor(ArmorTier::Diamond, Piece::Boots)
        | Item::Armor(ArmorTier::Netherite, Piece::Helmet)
        | Item::Armor(ArmorTier::Netherite, Piece::Boots) => 3,
        Item::Armor(ArmorTier::Chainmail, Piece::Leggings) => 4,
        Item::Armor(ArmorTier::Iron, Piece::Leggings)
        | Item::Armor(ArmorTier::Golden, Piece::Chestplate)
        | Item::Armor(ArmorTier::Chainmail, Piece::Chestplate) => 5,
        Item::Armor(ArmorTier::Iron, Piece::Chestplate)
        | Item::Armor(ArmorTier::Diamond, Piece::Leggings)
        | Item::Armor(ArmorTier::Netherite, Piece::Leggings) => 6,
        Item::Armor(ArmorTier::Diamond, Piece::Chestplate)
        | Item::Armor(ArmorTier::Netherite, Piece::Chestplate) => 8,
        _ => 0,
    }
}

/// The armor toughness of an item.
pub fn calculate_toughness(item: Item) -> (points: u32)
    ensures
        points == toughness_points(item),
{
    match item {
        Item::Armor(ArmorTier::Diamond, _) => 2,
        Item::Armor(ArmorTier::Netherite, _) => 3,
        _ => 0,
    }
}

/// What a player's gear adds to their statistics. Each worn slot counts
/// for whatever is in it.
pub fn calculate_stats(inventory: &Loadout) -> (stats: GearStats)
    ensures
        stats == gear_stats(*inventory),
        1 <= stats.damage <= 8,
        stats.armor <= 32,
        stats.armor_toughness <= 12,
{
    proof {
        lemma_item_bounds(inventory.cursor);
        lemma_item_bounds(inventory.helmet);
        lemma_item_bounds(inventory.chestplate);
        lemma_item_bounds(inventory.leggings);
        lemma_item_bounds(inventory.boots);
    }
    let damage = calculate_damage(inventory.cursor);
    let armor = calculate_armor(inventory.helmet) + calculate_armor(inventory.chestplate)
        + calculate_armor(inventory.leggings) + calculate_armor(inventory.boots);
    let armor_toughness = calculate_toughness(inventory.helmet) + calculate_toughness(
        inventory.chestplate,
    ) + calculate_toughness(inventory.leggings) + calculate_toughness(inventory.boots);
    GearStats { armor, armor_toughness, damage, protection: 0 }
}

} // verus!
