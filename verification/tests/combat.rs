use event_queue::combat::{
    AttackModule, AttackOutcome, ImmuneUntil, KillCount, Upgrade, IMMUNE_TICK_DURATION,
};
use event_queue::gear::{
    calculate_armor, calculate_damage, calculate_stats, calculate_toughness, ArmorTier, GearStats,
    Item, Loadout, Piece, SwordTier,
};
use event_queue::record::{TagRegistry, TypeTag};
use event_queue::respawn::{
    choose_mate, mate_at, respawn_probe, teammates, Anchor, BlockPos, Candidate,
};

fn armor(tier: ArmorTier, piece: Piece, protected: bool) -> Upgrade {
    Upgrade::Armor { tier, piece, protected }
}

#[test]
fn registry_hands_out_distinct_tags() {
    let mut registry = TagRegistry::new();
    let first = registry.register();
    let second = registry.register();
    let third = registry.register();
    assert_eq!(first, Some(TypeTag { raw: 0 }));
    assert_eq!(second, Some(TypeTag { raw: 1 }));
    assert_eq!(third, Some(TypeTag { raw: 2 }));
    assert_ne!(first, second);
    assert_ne!(second, third);
}

#[test]
fn immunity_blocks_until_its_tick() {
    let mut immunity = ImmuneUntil::new(100);
    assert!(!immunity.absorb(99));
    assert_eq!(immunity.tick(), 100);
    assert!(immunity.absorb(100));
    assert_eq!(immunity.tick(), 100 + IMMUNE_TICK_DURATION);
    assert!(!immunity.absorb(109));
    assert!(immunity.absorb(110));
    assert_eq!(immunity.tick(), 120);
}

#[test]
fn default_immunity_and_kill_count_are_zero() {
    assert_eq!(ImmuneUntil::default().tick(), 0);
    assert_eq!(KillCount::default().kill_count, 0);
}

#[test]
fn judge_looks_at_immunity_first() {
    let immune = Some(ImmuneUntil::new(50));
    assert_eq!(
        AttackModule::judge(immune, 49, false),
        (AttackOutcome::Immune, immune)
    );
    assert_eq!(
        AttackModule::judge(immune, 49, true),
        (AttackOutcome::Immune, immune)
    );
}

#[test]
fn judge_renews_immunity_even_for_a_teammate() {
    let immune = Some(ImmuneUntil::new(50));
    assert_eq!(
        AttackModule::judge(immune, 50, true),
        (AttackOutcome::Teammate, Some(ImmuneUntil::new(60)))
    );
    assert_eq!(
        AttackModule::judge(immune, 70, false),
        (AttackOutcome::Hit, Some(ImmuneUntil::new(80)))
    );
}

#[test]
fn judge_without_immunity_always_reaches_the_team_check() {
    assert_eq!(AttackModule::judge(None, 5, false), (AttackOutcome::Hit, None));
    assert_eq!(
        AttackModule::judge(None, 5, true),
        (AttackOutcome::Teammate, None)
    );
}

#[test]
fn first_kills_walk_through_the_materials() {
    assert_eq!(AttackModule::upgrade_for(0), Upgrade::Nothing);
    assert_eq!(AttackModule::upgrade_for(1), Upgrade::Sword(SwordTier::Wooden));
    assert_eq!(
        AttackModule::upgrade_for(2),
        armor(ArmorTier::Leather, Piece::Boots, false)
    );
    assert_eq!(
        AttackModule::upgrade_for(5),
        armor(ArmorTier::Leather, Piece::Helmet, false)
    );
    assert_eq!(AttackModule::upgrade_for(6), Upgrade::Sword(SwordTier::Stone));
    assert_eq!(
        AttackModule::upgrade_for(9),
        armor(ArmorTier::Chainmail, Piece::Chestplate, false)
    );
    assert_eq!(AttackModule::upgrade_for(11), Upgrade::Sword(SwordTier::Iron));
    assert_eq!(
        AttackModule::upgrade_for(13),
        armor(ArmorTier::Iron, Piece::Leggings, false)
    );
    assert_eq!(AttackModule::upgrade_for(16), Upgrade::Sword(SwordTier::Diamond));
    assert_eq!(
        AttackModule::upgrade_for(21),
        Upgrade::Sword(SwordTier::Netherite)
    );
    assert_eq!(
        AttackModule::upgrade_for(25),
        armor(ArmorTier::Netherite, Piece::Helmet, false)
    );
}

#[test]
fn prestige_starts_over_with_protection() {
    assert_eq!(AttackModule::upgrade_for(26), Upgrade::ProtectedLeatherSet);
    assert_eq!(
        AttackModule::upgrade_for(27),
        armor(ArmorTier::Chainmail, Piece::Boots, true)
    );
    assert_eq!(
        AttackModule::upgrade_for(34),
        armor(ArmorTier::Iron, Piece::Helmet, true)
    );
    assert_eq!(
        AttackModule::upgrade_for(42),
        armor(ArmorTier::Netherite, Piece::Helmet, true)
    );
    for kills in 43..=50 {
        assert_eq!(AttackModule::upgrade_for(kills), Upgrade::Nothing);
    }
    assert_eq!(
        AttackModule::upgrade_for(51),
        armor(ArmorTier::Chainmail, Piece::Boots, true)
    );
}

#[test]
fn upgrades_repeat_every_cycle() {
    for kills in 27..200u32 {
        assert_eq!(
            AttackModule::upgrade_for(kills + 24),
            AttackModule::upgrade_for(kills)
        );
    }
}

#[test]
fn record_kill_pays_for_the_count_before() {
    let mut kills = KillCount { kill_count: 0 };
    assert_eq!(AttackModule::record_kill(&mut kills), Upgrade::Nothing);
    assert_eq!(kills.kill_count, 1);
    assert_eq!(
        AttackModule::record_kill(&mut kills),
        Upgrade::Sword(SwordTier::Wooden)
    );
    assert_eq!(kills.kill_count, 2);
}

#[test]
fn damage_of_held_items() {
    assert_eq!(calculate_damage(Item::Sword(SwordTier::Wooden)), 4);
    assert_eq!(calculate_damage(Item::Sword(SwordTier::Golden)), 4);
    assert_eq!(calculate_damage(Item::Sword(SwordTier::Stone)), 5);
    assert_eq!(calculate_damage(Item::Sword(SwordTier::Iron)), 6);
    assert_eq!(calculate_damage(Item::Sword(SwordTier::Diamond)), 7);
    assert_eq!(calculate_damage(Item::Sword(SwordTier::Netherite)), 8);
    assert_eq!(calculate_damage(Item::WoodenPickaxe), 2);
    assert_eq!(calculate_damage(Item::Other), 1);
    assert_eq!(
        calculate_damage(Item::Armor(ArmorTier::Iron, Piece::Helmet)),
        1
    );
}

#[test]
fn armor_of_each_piece() {
    let expected = [
        (ArmorTier::Leather, [1, 3, 2, 1]),
        (ArmorTier::Golden, [1, 5, 2, 1]),
        (ArmorTier::Chainmail, [1, 5, 4, 1]),
        (ArmorTier::Iron, [2, 6, 5, 2]),
        (ArmorTier::Diamond, [3, 8, 6, 3]),
        (ArmorTier::Netherite, [3, 8, 6, 3]),
    ];
    let pieces = [Piece::Helmet, Piece::Chestplate, Piece::Leggings, Piece::Boots];
    for (tier, points) in expected {
        for (piece, point) in pieces.iter().zip(points) {
            assert_eq!(calculate_armor(Item::Armor(tier, *piece)), point);
        }
    }
    assert_eq!(calculate_armor(Item::Other), 0);
    assert_eq!(calculate_armor(Item::Sword(SwordTier::Diamond)), 0);
}

#[test]
fn toughness_of_each_material() {
    assert_eq!(
        calculate_toughness(Item::Armor(ArmorTier::Diamond, Piece::Boots)),
        2
    );
    assert_eq!(
        calculate_toughness(Item::Armor(ArmorTier::Netherite, Piece::Helmet)),
        3
    );
    assert_eq!(
        calculate_toughness(Item::Armor(ArmorTier::Iron, Piece::Chestplate)),
        0
    );
    assert_eq!(calculate_toughness(Item::WoodenPickaxe), 0);
}

#[test]
fn stats_of_a_diamond_set_with_a_sword() {
    let loadout = Loadout {
        cursor: Item::Sword(SwordTier::Iron),
        helmet: Item::Armor(ArmorTier::Diamond, Piece::Helmet),
        chestplate: Item::Armor(ArmorTier::Diamond, Piece::Chestplate),
        leggings: Item::Armor(ArmorTier::Diamond, Piece::Leggings),
        boots: Item::Armor(ArmorTier::Diamond, Piece::Boots),
    };
    assert_eq!(
        calculate_stats(&loadout),
        GearStats { armor: 20, armor_toughness: 8, damage: 6, protection: 0 }
    );
}

#[test]
fn stats_of_bare_hands() {
    let loadout = Loadout {
        cursor: Item::Other,
        helmet: Item::Other,
        chestplate: Item::Other,
        leggings: Item::Other,
        boots: Item::Other,
    };
    assert_eq!(
        calculate_stats(&loadout),
        GearStats { armor: 0, armor_toughness: 0, damage: 1, protection: 0 }
    );
}

#[test]
fn teammates_leaves_out_the_client_and_other_teams() {
    let candidates = vec![
        Candidate { entity: 10, team: 1 },
        Candidate { entity: 11, team: 2 },
        Candidate { entity: 12, team: 1 },
        Candidate { entity: 13, team: 1 },
    ];
    assert_eq!(teammates(&candidates, 12, 1), vec![0, 3]);
    assert_eq!(teammates(&candidates, 11, 2), Vec::<usize>::new());
    assert_eq!(teammates(&candidates, 99, 1), vec![0, 2, 3]);
    assert_eq!(teammates(&Vec::new(), 1, 1), Vec::<usize>::new());
}

#[test]
fn mate_at_is_bounds_checked() {
    let mates = vec![4usize, 7, 9];
    assert_eq!(mate_at(&mates, 0), Some(4));
    assert_eq!(mate_at(&mates, 2), Some(9));
    assert_eq!(mate_at(&mates, 3), None);
}

#[test]
fn choose_mate_picks_every_mate_sooner_or_later() {
    let mates = vec![4usize, 7, 9];
    let mut seen = [false; 3];
    for _ in 0..2000 {
        let picked = choose_mate(&mates).unwrap();
        let place = mates.iter().position(|m| *m == picked).unwrap();
        seen[place] = true;
    }
    assert_eq!(seen, [true, true, true]);
    assert_eq!(choose_mate(&vec![42usize]), Some(42));
}

#[test]
fn probes_run_z_first_then_y_then_x() {
    let anchor = Anchor { x: 100, y: 64, z: -20 };
    assert_eq!(
        respawn_probe(anchor, 0),
        Some(BlockPos { x: 85, y: 49, z: -35 })
    );
    assert_eq!(
        respawn_probe(anchor, 1),
        Some(BlockPos { x: 85, y: 49, z: -34 })
    );
    assert_eq!(
        respawn_probe(anchor, 29),
        Some(BlockPos { x: 85, y: 49, z: -6 })
    );
    assert_eq!(
        respawn_probe(anchor, 30),
        Some(BlockPos { x: 85, y: 50, z: -35 })
    );
    assert_eq!(
        respawn_probe(anchor, 900),
        Some(BlockPos { x: 86, y: 49, z: -35 })
    );
    assert_eq!(
        respawn_probe(anchor, 26_999),
        Some(BlockPos { x: 114, y: 78, z: -6 })
    );
    assert_eq!(respawn_probe(anchor, 27_000), None);
    assert_eq!(respawn_probe(anchor, u32::MAX), None);
}

#[test]
fn probes_visit_each_block_once_in_order() {
    let anchor = Anchor { x: 0, y: 0, z: 0 };
    let mut step = 0u32;
    for x in -15..15 {
        for y in -15..15 {
            for z in -15..15 {
                assert_eq!(respawn_probe(anchor, step), Some(BlockPos { x, y, z }));
                step += 1;
            }
        }
    }
    assert_eq!(step, 27_000);
}
