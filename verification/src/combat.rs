//! The rules of an attack that are decided on whole numbers: immunity after
//! a hit, friendly fire, and what a kill earns the attacker.

use vstd::prelude::*;
use crate::gear::{ArmorTier, Piece, SwordTier};

verus! {

/// For how many ticks a player cannot be hit again after a hit.
pub const IMMUNE_TICK_DURATION: i64 = 10;

/// Kills after which the attacker's armor starts over as a protected
/// leather set.
pub const PRESTIGE_KILLS: u32 = 26;

/// Length of the cycle of protected upgrades that follows the prestige.
pub const PRESTIGE_CYCLE: u32 = 24;

/// The tick up to which a player cannot be hit.
#[derive(Debug, Copy, Clone, PartialEq, Eq, Structural)]
pub struct ImmuneUntil {
    tick: i64,
}

/// How many players a player has killed.
#[derive(Debug, Copy, Clone, PartialEq, Eq, Structural)]
pub struct KillCount {
    pub kill_count: u32,
}

/// How an attack ends before any damage is worked out.
#[derive(Debug, Copy, Clone, PartialEq, Eq, Structural)]
pub enum AttackOutcome {
    /// The target is still immune: nothing happens.
    Immune,
    /// Attacker and target are on one team: the attacker is told off.
    Teammate,
    /// The hit lands.
    Hit,
}

/// What a kill earns the attacker.
#[derive(Debug, Copy, Clone, PartialEq, Eq, Structural)]
pub enum Upgrade {
    Nothing,
    /// A sword for the first hotbar slot.
    Sword(SwordTier),
    /// One piece of armor, with or without the protection enchantment.
    Armor { tier: ArmorTier, piece: Piece, protected: bool },
    /// All four pieces of leather armor, each with protection.
    ProtectedLeatherSet,
}

/// The combat system: a name for its rules.
#[derive(Debug, Copy, Clone, PartialEq, Eq, Structural)]
pub struct AttackModule;

/// The sword material of the given rank, from wood up.
pub open spec fn sword_rank(rank: int) -> SwordTier {
    if rank <= 0 {
        SwordTier::Wooden
    } else if rank == 1 {
        SwordTier::Stone
    } else if rank == 2 {
        SwordTier::Iron
    } else if rank == 3 {
        SwordTier::Diamond
    } else {
        SwordTier::Netherite
    }
}

/// The armor material of the given rank, from leather up.
pub open spec fn armor_rank(rank: int) -> ArmorTier {
    if rank <= 0 {
        ArmorTier::Leather
    } else if rank == 1 {
        ArmorTier::Chainmail
    } else if rank == 2 {
        ArmorTier::Iron
    } else if rank == 3 {
        ArmorTier::Diamond
    } else {
        ArmorTier::Netherite
    }
}

/// The order in which pieces are handed out: from the feet up.
pub open spec fn piece_rank(rank: int) -> Piece {
    if rank <= 0 {
        Piece::Boots
    } else if rank == 1 {
        Piece::Leggings
    } else if rank == 2 {
        Piece::Chestplate
    } else {
        Piece::Helmet
    }
}

/// What the attacker gets for a kill made with `kills` kills to their
/// name. The first 25 kills walk through five materials, each a sword and
/// then the four pieces of armor; the 26th starts over with a protected
/// leather set; after that every cycle of 24 kills hands out the protected
/// pieces of the four better materials and then nothing for 8 kills.
pub open spec fn upgrade_at(kills: nat) -> Upgrade {
    if kills == 0 {
        Upgrade::Nothing
    } else if kills < PRESTIGE_KILLS {
        let step = kills - 1;
        if step % 5 == 0 {
            Upgrade::Sword(sword_rank(step / 5))
        } else {
            Upgrade::Armor {
                tier: armor_rank(step / 5),
                piece: piece_rank(step % 5 - 1),
                protected: false,
            }
        }
    } else if kills == PRESTIGE_KILLS {
        Upgrade::ProtectedLeatherSet
    } else {
        let level = (kills - PRESTIGE_KILLS) % (PRESTIGE_CYCLE as int);
        if 1 <= level <= 16 {
            Upgrade::Armor {
                tier: armor_rank(1 + (level - 1) / 4),
                piece: piece_rank((level - 1) % 4),
                protected: true,
            }
        } else {
            Upgrade::Nothing
        }
    }
}

impl ImmuneUntil {
    /// The tick up to which the player is immune.
    pub closed spec fn until(self) -> int {
        self.tick as int
    }

    /// Whether a hit at `current_tick` is shrugged off.
    pub open spec fn blocks(self, current_tick: int) -> bool {
        self.until() > current_tick
    }

    /// Immunity up to `tick`.
    pub fn new(tick: i64) -> (r: Self)
        ensures
            r.until() == tick,
    {
        Self { tick }
    }

    /// The tick up to which the player is immune.
    pub fn tick(&self) -> (r: i64)
        ensures
            r == self.until(),
    {
        self.tick
    }

    /// Takes a hit at `current_tick`. While immune, nothing changes and the
    /// hit is refused; otherwise the hit is let through and immunity lasts
    /// for the next `IMMUNE_TICK_DURATION` ticks.
    pub fn absorb(&mut self, current_tick: i64) -> (lands: bool)
        requires
            current_tick <= i64::MAX - IMMUNE_TICK_DURATION,
        ensures
            lands == !old(self).blocks(current_tick as int),
            !lands ==> *final(self) == *old(self),
            lands ==> final(self).until() == current_tick + IMMUNE_TICK_DURATION,
    {
        if self.tick > current_tick {
            return false;
        }
        self.tick = current_tick + IMMUNE_TICK_DURATION;
        true
    }
}

impl Default for ImmuneUntil {
    /// No immunity from tick 0 on.
    fn default() -> (r: Self)
        ensures
            r.until() == 0,
    {
        Self { tick: 0 }
    }
}

impl Default for KillCount {
    /// No kills yet.
    fn default() -> (r: Self)
        ensures
            r.kill_count == 0,
    {
        Self { kill_count: 0 }
    }
}

impl AttackModule {
    /// Decides how an attack at `current_tick` ends. Immunity is looked at
    /// first, and a target that was not immune becomes so even when the
    /// blow came from a teammate and does no harm. A target that has no
    /// immunity to speak of can always be hit.
    pub fn judge(immunity: Option<ImmuneUntil>, current_tick: i64, same_team: bool) -> (r: (
        AttackOutcome,
        Option<ImmuneUntil>,
    ))
        requires
            current_tick <= i64::MAX - IMMUNE_TICK_DURATION,
        ensures
            r.0 == Self::outcome(immunity, current_tick as int, same_team),
            immunity.is_none() ==> r.1.is_none(),
            immunity.is_some() && r.0 == AttackOutcome::Immune ==> r.1 == immunity,
            immunity.is_some() && r.0 != AttackOutcome::Immune ==> r.1.is_some()
                && r.1.unwrap().until() == current_tick + IMMUNE_TICK_DURATION,
    {
        let mut after = immunity;
        if let Some(mut state) = immunity {
            if !state.absorb(current_tick) {
                return (AttackOutcome::Immune, immunity);
            }
            after = Some(state);
        }
        if same_team {
            (AttackOutcome::Teammate, after)
        } else {
            (AttackOutcome::Hit, after)
        }
    }

    /// How an attack ends, by the rules alone.
    pub open spec fn outcome(
        immunity: Option<ImmuneUntil>,
        current_tick: int,
        same_team: bool,
    ) -> AttackOutcome {
        if immunity.is_some() && immunity.unwrap().blocks(current_tick) {
            AttackOutcome::Immune
        } else if same_team {
            AttackOutcome::Teammate
        } else {
            AttackOutcome::Hit
        }
    }

    /// What a kill earns an attacker who had `kills` kills before it.
    pub fn upgrade_for(kills: u32) -> (r: Upgrade)
        ensures
            r == upgrade_at(kills as nat),
    {
        match kills {
            0 => Upgrade::Nothing,
            1 => Upgrade::Sword(SwordTier::Wooden),
            2 => Upgrade::Armor { tier: ArmorTier::Leather, piece: Piece::Boots, protected: false },
            3 => Upgrade::Armor {
                tier: ArmorTier::Leather,
                piece: Piece::Leggings,
                protected: false,
            },
            4 => Upgrade::Armor {
                tier: ArmorTier::Leather,
                piece: Piece::Chestplate,
                protected: false,
            },
            5 => Upgrade::Armor {
                tier: ArmorTier::Leather,
                piece: Piece::Helmet,
                protected: false,
            },
            6 => Upgrade::Sword(SwordTier::Stone),
            7 => Upgrade::Armor {
                tier: ArmorTier::Chainmail,
                piece: Piece::Boots,
                protected: false,
            },
            8 => Upgrade::Armor {
                tier: ArmorTier::Chainmail,
                piece: Piece::Leggings,
                protected: false,
            },
            9 => Upgrade::Armor {
                tier: ArmorTier::Chainmail,
                piece: Piece::Chestplate,
                protected: false,
            },
            10 => Upgrade::Armor {
                tier: ArmorTier::Chainmail,
                piece: Piece::Helmet,
                protected: false,
            },
            11 => Upgrade::Sword(SwordTier::Iron),
            12 => Upgrade::Armor { tier: ArmorTier::Iron, piece: Piece::Boots, protected: false },
            13 => Upgrade::Armor {
                tier: ArmorTier::Iron,
                piece: Piece::Leggings,
                protected: false,
            },
            14 => Upgrade::Armor {
                tier: ArmorTier::Iron,
                piece: Piece::Chestplate,
                protected: false,
            },
            15 => Upgrade::Armor { tier: ArmorTier::Iron, piece: Piece::Helmet, protected: false },
            16 => Upgrade::Sword(SwordTier::Diamond),
            17 => Upgrade::Armor {
                tier: ArmorTier::Diamond,
                piece: Piece::Boots,
                protected: false,
            },
            18 => Upgrade::Armor {
                tier: ArmorTier::Diamond,
                piece: Piece::Leggings,
                protected: false,
            },
            19 => Upgrade::Armor {
                tier: ArmorTier::Diamond,
                piece: Piece::Chestplate,
                protected: false,
            },
            20 => Upgrade::Armor {
                tier: ArmorTier::Diamond,
                piece: Piece::Helmet,
                protected: false,
            },
            21 => Upgrade::Sword(SwordTier::Netherite),
            22 => Upgrade::Armor {
                tier: ArmorTier::Netherite,
                piece: Piece::Boots,
                protected: false,
            },
            23 => Upgrade::Armor {
                tier: ArmorTier::Netherite,
                piece: Piece::Leggings,
                protected: false,
            },
            24 => Upgrade::Armor {
                tier: ArmorTier::Netherite,
                piece: Piece::Chestplate,
                protected: false,
            },
            25 => Upgrade::Armor {
                tier: ArmorTier::Netherite,
                piece: Piece::Helmet,
                protected: false,
            },
            26 => Upgrade::ProtectedLeatherSet,
            _ => {
                let level: u32 = (kills - PRESTIGE_KILLS) % PRESTIGE_CYCLE;
                match level {
                    1 => Upgrade::Armor {
                        tier: ArmorTier::Chainmail,
                        piece: Piece::Boots,
                        protected: true,
                    },
                    2 => Upgrade::Armor {
                        tier: ArmorTier::Chainmail,
                        piece: Piece::Leggings,
                        protected: true,
                    },
                    3 => Upgrade::Armor {
                        tier: ArmorTier::Chainmail,
                        piece: Piece::Chestplate,
                        protected: true,
                    },
                    4 => Upgrade::Armor {
                        tier: ArmorTier::Chainmail,
                        piece: Piece::Helmet,
                        protected: true,
                    },
                    5 => Upgrade::Armor {
                        tier: ArmorTier::Iron,
                        piece: Piece::Boots,
                        protected: true,
                    },
                    6 => Upgrade::Armor {
                        tier: ArmorTier::Iron,
                        piece: Piece::Leggings,
                        protected: true,
                    },
                    7 => Upgrade::Armor {
                        tier: ArmorTier::Iron,
                        piece: Piece::Chestplate,
                        protected: true,
                    },
                    8 => Upgrade::Armor {
                        tier: ArmorTier::Iron,
                        piece: Piece::Helmet,
                        protected: true,
                    },
                    9 => Upgrade::Armor {
                        tier: ArmorTier::Diamond,
                        piece: Piece::Boots,
                        protected: true,
                    },
                    10 => Upgrade::Armor {
                        tier: ArmorTier::Diamond,
                        piece: Piece::Leggings,
                        protected: true,
                    },
                    11 => Upgrade::Armor {
                        tier: ArmorTier::Diamond,
                        piece: Piece::Chestplate,
                        protected: true,
                    },
                    12 => Upgrade::Armor {
                        tier: ArmorTier::Diamond,
                        piece: Piece::Helmet,
                        protected: true,
                    },
                    13 => Upgrade::Armor {
                        tier: ArmorTier::Netherite,
                        piece: Piece::Boots,
                        protected: true,
                    },
                    14 => Upgrade::Armor {
                        tier: ArmorTier::Netherite,
                        piece: Piece::Leggings,
                        protected: true,
                    },
                    15 => Upgrade::Armor {
                        tier: ArmorTier::Netherite,
                        piece: Piece::Chestplate,
                        protected: true,
                    },
                    16 => Upgrade::Armor {
                        tier: ArmorTier::Netherite,
                        piece: Piece::Helmet,
                        protected: true,
                    },
                    _ => Upgrade::Nothing,
                }
            },
        }
    }

    /// Books a kill: the attacker earns the upgrade of the count they had,
    /// and the count goes up by one.
    pub fn record_kill(kills: &mut KillCount) -> (r: Upgrade)
        requires
            old(kills).kill_count < u32::MAX,
        ensures
            r == upgrade_at(old(kills).kill_count as nat),
            final(kills).kill_count == old(kills).kill_count + 1,
    {
        let earned = Self::upgrade_for(kills.kill_count);
        kills.kill_count = kills.kill_count + 1;
        earned
    }
}

/// After the prestige the upgrades repeat with every full cycle of kills.
pub proof fn lemma_upgrades_cycle(kills: nat)
    requires
        kills > PRESTIGE_KILLS,
    ensures
        upgrade_at(kills + PRESTIGE_CYCLE as nat) == upgrade_at(kills),
{
    let a = kills - PRESTIGE_KILLS;
    assert((a + 24) % 24 == a % 24) by (nonlinear_arith)
        requires
            a >= 0,
    ;
}

/// Whoever is still immune is never hit, and whoever is hit is immune for
/// the ticks that follow: two attacks less than `IMMUNE_TICK_DURATION`
/// ticks apart cannot both land on a target that keeps track of immunity.
pub proof fn lemma_no_double_hit(
    first: ImmuneUntil,
    first_tick: int,
    second_tick: int,
    same_team: bool,
)
    requires
        first.until() == first_tick + IMMUNE_TICK_DURATION,
        first_tick <= second_tick < first_tick + IMMUNE_TICK_DURATION,
    ensures
        AttackModule::outcome(Some(first), second_tick, same_team) == AttackOutcome::Immune,
{
}

} // verus!
