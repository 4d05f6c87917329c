//! The arenas of Clash Royale.

use vstd::prelude::*;
use crate::text::decimal;
use core::cmp::Ordering;
use core::convert::TryFrom;

verus! {

/// An arena of Clash Royale, ordered by the progression of a player.
#[derive(Debug, Copy, Clone, Eq, PartialEq, Hash, Ord, Structural)]
pub enum ClashRoyaleArena {
    Arena1,
    Arena2,
    Arena3,
    Arena4,
    Arena5,
    Arena6,
    Arena7,
    Arena8,
    Arena9,
    Arena10,
    Arena11,
    Arena12,
    Arena13,
    Arena14,
    LegendaryArena,
    ChallengerII,
    ChallengerIII,
    MasterI,
    MasterII,
    MasterIII,
    Champion,
    GrandChampion,
    RoyalChampion,
    UltimateChampion,
}

/// The identifier the game gives an arena.
pub open spec fn arena_id(arena: ClashRoyaleArena) -> u64 {
    match arena {
        ClashRoyaleArena::Arena1 => 54000001,
        ClashRoyaleArena::Arena2 => 54000002,
        ClashRoyaleArena::Arena3 => 54000003,
        ClashRoyaleArena::Arena4 => 54000004,
        ClashRoyaleArena::Arena5 => 54000005,
        ClashRoyaleArena::Arena6 => 54000006,
        ClashRoyaleArena::Arena7 => 54000008,
        ClashRoyaleArena::Arena8 => 54000009,
        ClashRoyaleArena::Arena9 => 54000010,
        ClashRoyaleArena::Arena10 => 54000007,
        ClashRoyaleArena::Arena11 => 54000024,
        ClashRoyaleArena::Arena12 => 54000011,
        ClashRoyaleArena::Arena13 => 54000055,
        ClashRoyaleArena::Arena14 => 54000056,
        ClashRoyaleArena::LegendaryArena => 54000057,
        ClashRoyaleArena::ChallengerII => 54000013,
        ClashRoyaleArena::ChallengerIII => 54000014,
        ClashRoyaleArena::MasterI => 54000015,
        ClashRoyaleArena::MasterII => 54000016,
        ClashRoyaleArena::MasterIII => 54000017,
        ClashRoyaleArena::Champion => 54000018,
        ClashRoyaleArena::GrandChampion => 54000019,
        ClashRoyaleArena::RoyalChampion => 54000020,
        ClashRoyaleArena::UltimateChampion => 54000031,
    }
}

/// The position of an arena in the progression of a player, from 1.
pub open spec fn arena_order(arena: ClashRoyaleArena) -> u64 {
    match arena {
        ClashRoyaleArena::Arena1 => 1,
        ClashRoyaleArena::Arena2 => 2,
        ClashRoyaleArena::Arena3 => 3,
        ClashRoyaleArena::Arena4 => 4,
        ClashRoyaleArena::Arena5 => 5,
        ClashRoyaleArena::Arena6 => 6,
        ClashRoyaleArena::Arena7 => 7,
        ClashRoyaleArena::Arena8 => 8,
        ClashRoyaleArena::Arena9 => 9,
        ClashRoyaleArena::Arena10 => 10,
        ClashRoyaleArena::Arena11 => 11,
        ClashRoyaleArena::Arena12 => 12,
        ClashRoyaleArena::Arena13 => 13,
        ClashRoyaleArena::Arena14 => 14,
        ClashRoyaleArena::LegendaryArena => 15,
        ClashRoyaleArena::ChallengerII => 16,
        ClashRoyaleArena::ChallengerIII => 17,
        ClashRoyaleArena::MasterI => 18,
        ClashRoyaleArena::MasterII => 19,
        ClashRoyaleArena::MasterIII => 20,
        ClashRoyaleArena::Champion => 21,
        ClashRoyaleArena::GrandChampion => 22,
        ClashRoyaleArena::RoyalChampion => 23,
        ClashRoyaleArena::UltimateChampion => 24,
    }
}

/// The title of an arena.
pub open spec fn arena_title(arena: ClashRoyaleArena) -> Seq<char> {
    match arena {
        ClashRoyaleArena::Arena1 => "Arena 1"@,
        ClashRoyaleArena::Arena2 => "Arena 2"@,
        ClashRoyaleArena::Arena3 => "Arena 3"@,
        ClashRoyaleArena::Arena4 => "Arena 4"@,
        ClashRoyaleArena::Arena5 => "Arena 5"@,
        ClashRoyaleArena::Arena6 => "Arena 6"@,
        ClashRoyaleArena::Arena7 => "Arena 7"@,
        ClashRoyaleArena::Arena8 => "Arena 8"@,
        ClashRoyaleArena::Arena9 => "Arena 9"@,
        ClashRoyaleArena::Arena10 => "Arena 10"@,
        ClashRoyaleArena::Arena11 => "Arena 11"@,
        ClashRoyaleArena::Arena12 => "Arena 12"@,
        ClashRoyaleArena::Arena13 => "Arena 13"@,
        ClashRoyaleArena::Arena14 => "Arena 14"@,
        ClashRoyaleArena::LegendaryArena => "Legendary Arena"@,
        ClashRoyaleArena::ChallengerII => "Challenger II"@,
        ClashRoyaleArena::ChallengerIII => "Challenger III"@,
        ClashRoyaleArena::MasterI => "Master I"@,
        ClashRoyaleArena::MasterII => "Master II"@,
        ClashRoyaleArena::MasterIII => "Master III"@,
        ClashRoyaleArena::Champion => "Champion"@,
        ClashRoyaleArena::GrandChampion => "Grand Champion"@,
        ClashRoyaleArena::RoyalChampion => "Royal Champion"@,
        ClashRoyaleArena::UltimateChampion => "Ultimate Champion"@,
    }
}

/// The subtitle of an arena.
pub open spec fn arena_subtitle(arena: ClashRoyaleArena) -> Seq<char> {
    match arena {
        ClashRoyaleArena::Arena1 => "Goblin Stadium"@,
        ClashRoyaleArena::Arena2 => "Bone Pit"@,
        ClashRoyaleArena::Arena3 => "Barbarian Bowl"@,
        ClashRoyaleArena::Arena4 => "P.E.K.K.A's Playhouse"@,
        ClashRoyaleArena::Arena5 => "Spell Valley"@,
        ClashRoyaleArena::Arena6 => "Builder's Workshop"@,
        ClashRoyaleArena::Arena7 => "Royal Arena"@,
        ClashRoyaleArena::Arena8 => "Frozen Peak"@,
        ClashRoyaleArena::Arena9 => "Jungle Arena"@,
        ClashRoyaleArena::Arena10 => "Hog Mountain"@,
        ClashRoyaleArena::Arena11 => "Electro Valley"@,
        ClashRoyaleArena::Arena12 => "Spooky Town"@,
        ClashRoyaleArena::Arena13 => "Rascal's Hideout"@,
        ClashRoyaleArena::Arena14 => "Serenity Peak"@,
        ClashRoyaleArena::LegendaryArena => "Legendary Arena"@,
        ClashRoyaleArena::ChallengerII => "Challenger II"@,
        ClashRoyaleArena::ChallengerIII => "Challenger III"@,
        ClashRoyaleArena::MasterI => "Master I"@,
        ClashRoyaleArena::MasterII => "Master II"@,
        ClashRoyaleArena::MasterIII => "Master III"@,
        ClashRoyaleArena::Champion => "Champion"@,
        ClashRoyaleArena::GrandChampion => "Grand Champion"@,
        ClashRoyaleArena::RoyalChampion => "Royal Champion"@,
        ClashRoyaleArena::UltimateChampion => "Ultimate Champion"@,
    }
}

/// The address of the icon of an arena.
pub open spec fn arena_icon_url(arena: ClashRoyaleArena) -> Seq<char> {
    match arena {
        ClashRoyaleArena::Arena1 => "https://raw.githubusercontent.com/RoyaleAPI/cr-api-assets/master/arenas/arena1.png"@,
        ClashRoyaleArena::Arena2 => "https://raw.githubusercontent.com/RoyaleAPI/cr-api-assets/master/arenas/arena2.png"@,
        ClashRoyaleArena::Arena3 => "https://raw.githubusercontent.com/RoyaleAPI/cr-api-assets/master/arenas/arena3.png"@,
        ClashRoyaleArena::Arena4 => "https://raw.githubusercontent.com/RoyaleAPI/cr-api-assets/master/arenas/arena4.png"@,
        ClashRoyaleArena::Arena5 => "https://raw.githubusercontent.com/RoyaleAPI/cr-api-assets/master/arenas/arena5.png"@,
        ClashRoyaleArena::Arena6 => "https://raw.githubusercontent.com/RoyaleAPI/cr-api-assets/master/arenas/arena6.png"@,
        ClashRoyaleArena::Arena7 => "https://raw.githubusercontent.com/RoyaleAPI/cr-api-assets/master/arenas/arena7.png"@,
        ClashRoyaleArena::Arena8 => "https://raw.githubusercontent.com/RoyaleAPI/cr-api-assets/master/arenas/arena8.png"@,
        ClashRoyaleArena::Arena9 => "https://raw.githubusercontent.com/RoyaleAPI/cr-api-assets/master/arenas/arena9.png"@,
        ClashRoyaleArena::Arena10 => "https://raw.githubusercontent.com/RoyaleAPI/cr-api-assets/master/arenas/arena10.png"@,
        ClashRoyaleArena::Arena11 => "https://raw.githubusercontent.com/RoyaleAPI/cr-api-assets/master/arenas/arena11.png"@,
        ClashRoyaleArena::Arena12 => "https://raw.githubusercontent.com/RoyaleAPI/cr-api-assets/master/arenas/arena12.png"@,
        ClashRoyaleArena::Arena13 => "https://raw.githubusercontent.com/RoyaleAPI/cr-api-assets/master/arenas/arena13.png"@,
        ClashRoyaleArena::Arena14 => "https://raw.githubusercontent.com/RoyaleAPI/cr-api-assets/master/arenas/arena14.png"@,
        ClashRoyaleArena::LegendaryArena => "https://raw.githubusercontent.com/RoyaleAPI/cr-api-assets/master/arenas/arena15.png"@,
        ClashRoyaleArena::ChallengerII => "https://raw.githubusercontent.com/RoyaleAPI/cr-api-assets/master/arenas/arena16.png"@,
        ClashRoyaleArena::ChallengerIII => "https://raw.githubusercontent.com/RoyaleAPI/cr-api-assets/master/arenas/arena17.png"@,
        ClashRoyaleArena::MasterI => "https://raw.githubusercontent.com/RoyaleAPI/cr-api-assets/master/arenas/arena18.png"@,
        ClashRoyaleArena::MasterII => "https://raw.githubusercontent.com/RoyaleAPI/cr-api-assets/master/arenas/arena19.png"@,
        ClashRoyaleArena::MasterIII => "https://raw.githubusercontent.com/RoyaleAPI/cr-api-assets/master/arenas/arena20.png"@,
        ClashRoyaleArena::Champion => "https://raw.githubusercontent.com/RoyaleAPI/cr-api-assets/master/arenas/arena21.png"@,
        ClashRoyaleArena::GrandChampion => "https://raw.githubusercontent.com/RoyaleAPI/cr-api-assets/master/arenas/arena22.png"@,
        ClashRoyaleArena::RoyalChampion => "https://raw.githubusercontent.com/RoyaleAPI/cr-api-assets/master/arenas/arena23.png"@,
        ClashRoyaleArena::UltimateChampion => "https://raw.githubusercontent.com/RoyaleAPI/cr-api-assets/master/arenas/arena24.png"@,
    }
}

/// The arena with a given identifier, if any.
pub open spec fn arena_from_id(id: u64) -> Result<ClashRoyaleArena, ()> {
    if id == 54000001 {
        Ok(ClashRoyaleArena::Arena1)
    } else if id == 54000002 {
        Ok(ClashRoyaleArena::Arena2)
    } else if id == 54000003 {
        Ok(ClashRoyaleArena::Arena3)
    } else if id == 54000004 {
        Ok(ClashRoyaleArena::Arena4)
    } else if id == 54000005 {
        Ok(ClashRoyaleArena::Arena5)
    } else if id == 54000006 {
        Ok(ClashRoyaleArena::Arena6)
    } else if id == 54000008 {
        Ok(ClashRoyaleArena::Arena7)
    } else if id == 54000009 {
        Ok(ClashRoyaleArena::Arena8)
    } else if id == 54000010 {
        Ok(ClashRoyaleArena::Arena9)
    } else if id == 54000007 {
        Ok(ClashRoyaleArena::Arena10)
    } else if id == 54000024 {
        Ok(ClashRoyaleArena::Arena11)
    } else if id == 54000011 {
        Ok(ClashRoyaleArena::Arena12)
    } else if id == 54000055 {
        Ok(ClashRoyaleArena::Arena13)
    } else if id == 54000056 {
        Ok(ClashRoyaleArena::Arena14)
    } else if id == 54000057 {
        Ok(ClashRoyaleArena::LegendaryArena)
    } else if id == 54000013 {
        Ok(ClashRoyaleArena::ChallengerII)
    } else if id == 54000014 {
        Ok(ClashRoyaleArena::ChallengerIII)
    } else if id == 54000015 {
        Ok(ClashRoyaleArena::MasterI)
    } else if id == 54000016 {
        Ok(ClashRoyaleArena::MasterII)
    } else if id == 54000017 {
        Ok(ClashRoyaleArena::MasterIII)
    } else if id == 54000018 {
        Ok(ClashRoyaleArena::Champion)
    } else if id == 54000019 {
        Ok(ClashRoyaleArena::GrandChampion)
    } else if id == 54000020 {
        Ok(ClashRoyaleArena::RoyalChampion)
    } else if id == 54000031 {
        Ok(ClashRoyaleArena::UltimateChampion)
    } else {
        Err(())
    }
}

/// How two arenas compare in the progression of a player.
pub open spec fn arena_partial_cmp(a: ClashRoyaleArena, b: ClashRoyaleArena) -> Option<Ordering> {
    if arena_order(a) < arena_order(b) {
        Some(Ordering::Less)
    } else if arena_order(a) == arena_order(b) {
        Some(Ordering::Equal)
    } else {
        Some(Ordering::Greater)
    }
}

impl ClashRoyaleArena {
    /// All arenas, in declaration order.
    pub fn enum_list() -> (r: &'static [ClashRoyaleArena])
        ensures
            r@ == seq![
                ClashRoyaleArena::Arena1,
                ClashRoyaleArena::Arena2,
                ClashRoyaleArena::Arena3,
                ClashRoyaleArena::Arena4,
                ClashRoyaleArena::Arena5,
                ClashRoyaleArena::Arena6,
                ClashRoyaleArena::Arena7,
                ClashRoyaleArena::Arena8,
                ClashRoyaleArena::Arena9,
                ClashRoyaleArena::Arena10,
                ClashRoyaleArena::Arena11,
                ClashRoyaleArena::Arena12,
                ClashRoyaleArena::Arena13,
                ClashRoyaleArena::Arena14,
                ClashRoyaleArena::LegendaryArena,
                ClashRoyaleArena::ChallengerII,
                ClashRoyaleArena::ChallengerIII,
                ClashRoyaleArena::MasterI,
                ClashRoyaleArena::MasterII,
                ClashRoyaleArena::MasterIII,
                ClashRoyaleArena::Champion,
                ClashRoyaleArena::GrandChampion,
                ClashRoyaleArena::RoyalChampion,
                ClashRoyaleArena::UltimateChampion,
            ],
    {
        &[
            ClashRoyaleArena::Arena1,
            ClashRoyaleArena::Arena2,
            ClashRoyaleArena::Arena3,
            ClashRoyaleArena::Arena4,
            ClashRoyaleArena::Arena5,
            ClashRoyaleArena::Arena6,
            ClashRoyaleArena::Arena7,
            ClashRoyaleArena::Arena8,
            ClashRoyaleArena::Arena9,
            ClashRoyaleArena::Arena10,
            ClashRoyaleArena::Arena11,
            ClashRoyaleArena::Arena12,
            ClashRoyaleArena::Arena13,
            ClashRoyaleArena::Arena14,
            ClashRoyaleArena::LegendaryArena,
            ClashRoyaleArena::ChallengerII,
            ClashRoyaleArena::ChallengerIII,
            ClashRoyaleArena::MasterI,
            ClashRoyaleArena::MasterII,
            ClashRoyaleArena::MasterIII,
            ClashRoyaleArena::Champion,
            ClashRoyaleArena::GrandChampion,
            ClashRoyaleArena::RoyalChampion,
            ClashRoyaleArena::UltimateChampion,
        ]
    }

    /// The identifier the game gives this arena.
    pub fn id(&self) -> (r: u64)
        ensures
            r == arena_id(*self),
    {
        match self {
            ClashRoyaleArena::Arena1 => 54000001,
            ClashRoyaleArena::Arena2 => 54000002,
            ClashRoyaleArena::Arena3 => 54000003,
            ClashRoyaleArena::Arena4 => 54000004,
            ClashRoyaleArena::Arena5 => 54000005,
            ClashRoyaleArena::Arena6 => 54000006,
            ClashRoyaleArena::Arena7 => 54000008,
            ClashRoyaleArena::Arena8 => 54000009,
            ClashRoyaleArena::Arena9 => 54000010,
            ClashRoyaleArena::Arena10 => 54000007,
            ClashRoyaleArena::Arena11 => 54000024,
            ClashRoyaleArena::Arena12 => 54000011,
            ClashRoyaleArena::Arena13 => 54000055,
            ClashRoyaleArena::Arena14 => 54000056,
            ClashRoyaleArena::LegendaryArena => 54000057,
            ClashRoyaleArena::ChallengerII => 54000013,
            ClashRoyaleArena::ChallengerIII => 54000014,
            ClashRoyaleArena::MasterI => 54000015,
            ClashRoyaleArena::MasterII => 54000016,
            ClashRoyaleArena::MasterIII => 54000017,
            ClashRoyaleArena::Champion => 54000018,
            ClashRoyaleArena::GrandChampion => 54000019,
            ClashRoyaleArena::RoyalChampion => 54000020,
            ClashRoyaleArena::UltimateChampion => 54000031,
        }
    }

    /// The position of this arena in the progression of a player, from 1.
    pub fn order(&self) -> (r: u64)
        ensures
            r == arena_order(*self),
    {
        match self {
            ClashRoyaleArena::Arena1 => 1,
            ClashRoyaleArena::Arena2 => 2,
            ClashRoyaleArena::Arena3 => 3,
            ClashRoyaleArena::Arena4 => 4,
            ClashRoyaleArena::Arena5 => 5,
            ClashRoyaleArena::Arena6 => 6,
            ClashRoyaleArena::Arena7 => 7,
            ClashRoyaleArena::Arena8 => 8,
            ClashRoyaleArena::Arena9 => 9,
            ClashRoyaleArena::Arena10 => 10,
            ClashRoyaleArena::Arena11 => 11,
            ClashRoyaleArena::Arena12 => 12,
            ClashRoyaleArena::Arena13 => 13,
            ClashRoyaleArena::Arena14 => 14,
            ClashRoyaleArena::LegendaryArena => 15,
            ClashRoyaleArena::ChallengerII => 16,
            ClashRoyaleArena::ChallengerIII => 17,
            ClashRoyaleArena::MasterI => 18,
            ClashRoyaleArena::MasterII => 19,
            ClashRoyaleArena::MasterIII => 20,
            ClashRoyaleArena::Champion => 21,
            ClashRoyaleArena::GrandChampion => 22,
            ClashRoyaleArena::RoyalChampion => 23,
            ClashRoyaleArena::UltimateChampion => 24,
        }
    }

    pub fn title(&self) -> (r: &'static str)
        ensures
            r@ == arena_title(*self),
    {
        match self {
            ClashRoyaleArena::Arena1 => "Arena 1",
            ClashRoyaleArena::Arena2 => "Arena 2",
            ClashRoyaleArena::Arena3 => "Arena 3",
            ClashRoyaleArena::Arena4 => "Arena 4",
            ClashRoyaleArena::Arena5 => "Arena 5",
            ClashRoyaleArena::Arena6 => "Arena 6",
            ClashRoyaleArena::Arena7 => "Arena 7",
            ClashRoyaleArena::Arena8 => "Arena 8",
            ClashRoyaleArena::Arena9 => "Arena 9",
            ClashRoyaleArena::Arena10 => "Arena 10",
            ClashRoyaleArena::Arena11 => "Arena 11",
            ClashRoyaleArena::Arena12 => "Arena 12",
            ClashRoyaleArena::Arena13 => "Arena 13",
            ClashRoyaleArena::Arena14 => "Arena 14",
            ClashRoyaleArena::LegendaryArena => "Legendary Arena",
            ClashRoyaleArena::ChallengerII => "Challenger II",
            ClashRoyaleArena::ChallengerIII => "Challenger III",
            ClashRoyaleArena::MasterI => "Master I",
            ClashRoyaleArena::MasterII => "Master II",
            ClashRoyaleArena::MasterIII => "Master III",
            ClashRoyaleArena::Champion => "Champion",
            ClashRoyaleArena::GrandChampion => "Grand Champion",
            ClashRoyaleArena::RoyalChampion => "Royal Champion",
            ClashRoyaleArena::UltimateChampion => "Ultimate Champion",
        }
    }

    pub fn subtitle(&self) -> (r: &'static str)
        ensures
            r@ == arena_subtitle(*self),
    {
        match self {
            ClashRoyaleArena::Arena1 => "Goblin Stadium",
            ClashRoyaleArena::Arena2 => "Bone Pit",
            ClashRoyaleArena::Arena3 => "Barbarian Bowl",
            ClashRoyaleArena::Arena4 => "P.E.K.K.A's Playhouse",
            ClashRoyaleArena::Arena5 => "Spell Valley",
            ClashRoyaleArena::Arena6 => "Builder's Workshop",
            ClashRoyaleArena::Arena7 => "Royal Arena",
            ClashRoyaleArena::Arena8 => "Frozen Peak",
            ClashRoyaleArena::Arena9 => "Jungle Arena",
            ClashRoyaleArena::Arena10 => "Hog Mountain",
            ClashRoyaleArena::Arena11 => "Electro Valley",
            ClashRoyaleArena::Arena12 => "Spooky Town",
            ClashRoyaleArena::Arena13 => "Rascal's Hideout",
            ClashRoyaleArena::Arena14 => "Serenity Peak",
            ClashRoyaleArena::LegendaryArena => "Legendary Arena",
            ClashRoyaleArena::ChallengerII => "Challenger II",
            ClashRoyaleArena::ChallengerIII => "Challenger III",
            ClashRoyaleArena::MasterI => "Master I",
            ClashRoyaleArena::MasterII => "Master II",
            ClashRoyaleArena::MasterIII => "Master III",
            ClashRoyaleArena::Champion => "Champion",
            ClashRoyaleArena::GrandChampion => "Grand Champion",
            ClashRoyaleArena::RoyalChampion => "Royal Champion",
            ClashRoyaleArena::UltimateChampion => "Ultimate Champion",
        }
    }

    pub fn icon_url(&self) -> (r: &'static str)
        ensures
            r@ == arena_icon_url(*self),
    {
        match self {
            ClashRoyaleArena::Arena1 => "https://raw.githubusercontent.com/RoyaleAPI/cr-api-assets/master/arenas/arena1.png",
            ClashRoyaleArena::Arena2 => "https://raw.githubusercontent.com/RoyaleAPI/cr-api-assets/master/arenas/arena2.png",
            ClashRoyaleArena::Arena3 => "https://raw.githubusercontent.com/RoyaleAPI/cr-api-assets/master/arenas/arena3.png",
            ClashRoyaleArena::Arena4 => "https://raw.githubusercontent.com/RoyaleAPI/cr-api-assets/master/arenas/arena4.png",
            ClashRoyaleArena::Arena5 => "https://raw.githubusercontent.com/RoyaleAPI/cr-api-assets/master/arenas/arena5.png",
            ClashRoyaleArena::Arena6 => "https://raw.githubusercontent.com/RoyaleAPI/cr-api-assets/master/arenas/arena6.png",
            ClashRoyaleArena::Arena7 => "https://raw.githubusercontent.com/RoyaleAPI/cr-api-assets/master/arenas/arena7.png",
            ClashRoyaleArena::Arena8 => "https://raw.githubusercontent.com/RoyaleAPI/cr-api-assets/master/arenas/arena8.png",
            ClashRoyaleArena::Arena9 => "https://raw.githubusercontent.com/RoyaleAPI/cr-api-assets/master/arenas/arena9.png",
            ClashRoyaleArena::Arena10 => "https://raw.githubusercontent.com/RoyaleAPI/cr-api-assets/master/arenas/arena10.png",
            ClashRoyaleArena::Arena11 => "https://raw.githubusercontent.com/RoyaleAPI/cr-api-assets/master/arenas/arena11.png",
            ClashRoyaleArena::Arena12 => "https://raw.githubusercontent.com/RoyaleAPI/cr-api-assets/master/arenas/arena12.png",
            ClashRoyaleArena::Arena13 => "https://raw.githubusercontent.com/RoyaleAPI/cr-api-assets/master/arenas/arena13.png",
            ClashRoyaleArena::Arena14 => "https://raw.githubusercontent.com/RoyaleAPI/cr-api-assets/master/arenas/arena14.png",
            ClashRoyaleArena::LegendaryArena => "https://raw.githubusercontent.com/RoyaleAPI/cr-api-assets/master/arenas/arena15.png",
            ClashRoyaleArena::ChallengerII => "https://raw.githubusercontent.com/RoyaleAPI/cr-api-assets/master/arenas/arena16.png",
            ClashRoyaleArena::ChallengerIII => "https://raw.githubusercontent.com/RoyaleAPI/cr-api-assets/master/arenas/arena17.png",
            ClashRoyaleArena::MasterI => "https://raw.githubusercontent.com/RoyaleAPI/cr-api-assets/master/arenas/arena18.png",
            ClashRoyaleArena::MasterII => "https://raw.githubusercontent.com/RoyaleAPI/cr-api-assets/master/arenas/arena19.png",
            ClashRoyaleArena::MasterIII => "https://raw.githubusercontent.com/RoyaleAPI/cr-api-assets/master/arenas/arena20.png",
            ClashRoyaleArena::Champion => "https://raw.githubusercontent.com/RoyaleAPI/cr-api-assets/master/arenas/arena21.png",
            ClashRoyaleArena::GrandChampion => "https://raw.githubusercontent.com/RoyaleAPI/cr-api-assets/master/arenas/arena22.png",
            ClashRoyaleArena::RoyalChampion => "https://raw.githubusercontent.com/RoyaleAPI/cr-api-assets/master/arenas/arena23.png",
            ClashRoyaleArena::UltimateChampion => "https://raw.githubusercontent.com/RoyaleAPI/cr-api-assets/master/arenas/arena24.png",
        }
    }
}

/// Arenas compare by their order in the progression of a player.
impl PartialOrd for ClashRoyaleArena {
    fn partial_cmp(&self, other: &Self) -> (r: Option<Ordering>) {
        let a = self.order();
        let b = other.order();
        if a < b {
            Some(Ordering::Less)
        } else if a == b {
            Some(Ordering::Equal)
        } else {
            Some(Ordering::Greater)
        }
    }
}

impl vstd::std_specs::cmp::PartialOrdSpecImpl for ClashRoyaleArena {
    open spec fn obeys_partial_cmp_spec() -> bool {
        true
    }

    open spec fn partial_cmp_spec(&self, other: &Self) -> Option<Ordering> {
        arena_partial_cmp(*self, *other)
    }
}

impl TryFrom<u64> for ClashRoyaleArena {
    type Error = ();

    /// The arena with the given identifier; `Err(())` for an unknown one.
    fn try_from(v: u64) -> (r: Result<Self, Self::Error>) {
        if v == 54000001 {
            Ok(ClashRoyaleArena::Arena1)
        } else if v == 54000002 {
            Ok(ClashRoyaleArena::Arena2)
        } else if v == 54000003 {
            Ok(ClashRoyaleArena::Arena3)
        } else if v == 54000004 {
            Ok(ClashRoyaleArena::Arena4)
        } else if v == 54000005 {
            Ok(ClashRoyaleArena::Arena5)
        } else if v == 54000006 {
            Ok(ClashRoyaleArena::Arena6)
        } else if v == 54000008 {
            Ok(ClashRoyaleArena::Arena7)
        } else if v == 54000009 {
            Ok(ClashRoyaleArena::Arena8)
        } else if v == 54000010 {
            Ok(ClashRoyaleArena::Arena9)
        } else if v == 54000007 {
            Ok(ClashRoyaleArena::Arena10)
        } else if v == 54000024 {
            Ok(ClashRoyaleArena::Arena11)
        } else if v == 54000011 {
            Ok(ClashRoyaleArena::Arena12)
        } else if v == 54000055 {
            Ok(ClashRoyaleArena::Arena13)
        } else if v == 54000056 {
            Ok(ClashRoyaleArena::Arena14)
        } else if v == 54000057 {
            Ok(ClashRoyaleArena::LegendaryArena)
        } else if v == 54000013 {
            Ok(ClashRoyaleArena::ChallengerII)
        } else if v == 54000014 {
            Ok(ClashRoyaleArena::ChallengerIII)
        } else if v == 54000015 {
            Ok(ClashRoyaleArena::MasterI)
        } else if v == 54000016 {
            Ok(ClashRoyaleArena::MasterII)
        } else if v == 54000017 {
            Ok(ClashRoyaleArena::MasterIII)
        } else if v == 54000018 {
            Ok(ClashRoyaleArena::Champion)
        } else if v == 54000019 {
            Ok(ClashRoyaleArena::GrandChampion)
        } else if v == 54000020 {
            Ok(ClashRoyaleArena::RoyalChampion)
        } else if v == 54000031 {
            Ok(ClashRoyaleArena::UltimateChampion)
        } else {
            Err(())
        }
    }
}

impl vstd::std_specs::convert::TryFromSpecImpl<u64> for ClashRoyaleArena {
    open spec fn obeys_try_from_spec() -> bool {
        true
    }

    open spec fn try_from_spec(v: u64) -> Result<Self, Self::Error> {
        arena_from_id(v)
    }
}

// LAWS -----------------------------------------------------------------------

/// Every arena is found again from its identifier, and only from it.
pub proof fn lemma_arena_id_roundtrip(arena: ClashRoyaleArena, id: u64)
    ensures
        arena_from_id(arena_id(arena)) == Ok::<ClashRoyaleArena, ()>(arena),
        arena_from_id(id) == Ok::<ClashRoyaleArena, ()>(arena) ==> id == arena_id(arena),
{
}

/// Different arenas have different orders, each between 1 and 24.
pub proof fn lemma_arena_order_injective(a: ClashRoyaleArena, b: ClashRoyaleArena)
    ensures
        1 <= arena_order(a) <= 24,
        arena_order(a) == arena_order(b) <==> a == b,
{
}

/// Comparing two arenas gives `Equal` exactly when they are the same arena,
/// and swapping them reverses the answer.
pub proof fn lemma_arena_cmp_consistent(a: ClashRoyaleArena, b: ClashRoyaleArena)
    ensures
        arena_partial_cmp(a, b) == Some(Ordering::Equal) <==> a == b,
        arena_partial_cmp(a, b) == Some(Ordering::Less) <==> arena_partial_cmp(b, a) == Some(Ordering::Greater),
{
    lemma_arena_order_injective(a, b);
}

/// The comparison of arenas is transitive.
pub proof fn lemma_arena_cmp_transitive(a: ClashRoyaleArena, b: ClashRoyaleArena, c: ClashRoyaleArena)
    requires
        arena_partial_cmp(a, b) == Some(Ordering::Less),
        arena_partial_cmp(b, c) == Some(Ordering::Less),
    ensures
        arena_partial_cmp(a, c) == Some(Ordering::Less),
{
}

/// The start of the URL of an arena's icon.
pub open spec fn arena_icon_prefix() -> Seq<char> {
    "https://raw.githubusercontent.com/RoyaleAPI/cr-api-assets/master/arenas/arena"@
}

/// The icon of an arena is the image numbered by the arena's order:
/// `.../arenas/arena<order>.png`.
pub proof fn lemma_arena_icon_url_from_order(arena: ClashRoyaleArena)
    ensures
        arena_icon_url(arena) == arena_icon_prefix() + decimal(arena_order(arena) as nat) + ".png"@,
{
    reveal_strlit("https://raw.githubusercontent.com/RoyaleAPI/cr-api-assets/master/arenas/arena");
    reveal_strlit(".png");
    reveal_with_fuel(decimal, 2);
    match arena {
        ClashRoyaleArena::Arena1 => {
            reveal_strlit("https://raw.githubusercontent.com/RoyaleAPI/cr-api-assets/master/arenas/arena1.png");
            assert(arena_icon_url(arena) =~= arena_icon_prefix() + decimal(1nat) + ".png"@);
        },
        ClashRoyaleArena::Arena2 => {
            reveal_strlit("https://raw.githubusercontent.com/RoyaleAPI/cr-api-assets/master/arenas/arena2.png");
            assert(arena_icon_url(arena) =~= arena_icon_prefix() + decimal(2nat) + ".png"@);
        },
        ClashRoyaleArena::Arena3 => {
            reveal_strlit("https://raw.githubusercontent.com/RoyaleAPI/cr-api-assets/master/arenas/arena3.png");
            assert(arena_icon_url(arena) =~= arena_icon_prefix() + decimal(3nat) + ".png"@);
        },
        ClashRoyaleArena::Arena4 => {
            reveal_strlit("https://raw.githubusercontent.com/RoyaleAPI/cr-api-assets/master/arenas/arena4.png");
            assert(arena_icon_url(arena) =~= arena_icon_prefix() + decimal(4nat) + ".png"@);
        },
        ClashRoyaleArena::Arena5 => {
            reveal_strlit("https://raw.githubusercontent.com/RoyaleAPI/cr-api-assets/master/arenas/arena5.png");
            assert(arena_icon_url(arena) =~= arena_icon_prefix() + decimal(5nat) + ".png"@);
        },
        ClashRoyaleArena::Arena6 => {
            reveal_strlit("https://raw.githubusercontent.com/RoyaleAPI/cr-api-assets/master/arenas/arena6.png");
            assert(arena_icon_url(arena) =~= arena_icon_prefix() + decimal(6nat) + ".png"@);
        },
        ClashRoyaleArena::Arena7 => {
            reveal_strlit("https://raw.githubusercontent.com/RoyaleAPI/cr-api-assets/master/arenas/arena7.png");
            assert(arena_icon_url(arena) =~= arena_icon_prefix() + decimal(7nat) + ".png"@);
        },
        ClashRoyaleArena::Arena8 => {
            reveal_strlit("https://raw.githubusercontent.com/RoyaleAPI/cr-api-assets/master/arenas/arena8.png");
            assert(arena_icon_url(arena) =~= arena_icon_prefix() + decimal(8nat) + ".png"@);
        },
        ClashRoyaleArena::Arena9 => {
            reveal_strlit("https://raw.githubusercontent.com/RoyaleAPI/cr-api-assets/master/arenas/arena9.png");
            assert(arena_icon_url(arena) =~= arena_icon_prefix() + decimal(9nat) + ".png"@);
        },
        ClashRoyaleArena::Arena10 => {
            reveal_strlit("https://raw.githubusercontent.com/RoyaleAPI/cr-api-assets/master/arenas/arena10.png");
            assert(arena_icon_url(arena) =~= arena_icon_prefix() + decimal(10nat) + ".png"@);
        },
        ClashRoyaleArena::Arena11 => {
            reveal_strlit("https://raw.githubusercontent.com/RoyaleAPI/cr-api-assets/master/arenas/arena11.png");
            assert(arena_icon_url(arena) =~= arena_icon_prefix() + decimal(11nat) + ".png"@);
        },
        ClashRoyaleArena::Arena12 => {
            reveal_strlit("https://raw.githubusercontent.com/RoyaleAPI/cr-api-assets/master/arenas/arena12.png");
            assert(arena_icon_url(arena) =~= arena_icon_prefix() + decimal(12nat) + ".png"@);
        },
        ClashRoyaleArena::Arena13 => {
            reveal_strlit("https://raw.githubusercontent.com/RoyaleAPI/cr-api-assets/master/arenas/arena13.png");
            assert(arena_icon_url(arena) =~= arena_icon_prefix() + decimal(13nat) + ".png"@);
        },
        ClashRoyaleArena::Arena14 => {
            reveal_strlit("https://raw.githubusercontent.com/RoyaleAPI/cr-api-assets/master/arenas/arena14.png");
            assert(arena_icon_url(arena) =~= arena_icon_prefix() + decimal(14nat) + ".png"@);
        },
        ClashRoyaleArena::LegendaryArena => {
            reveal_strlit("https://raw.githubusercontent.com/RoyaleAPI/cr-api-assets/master/arenas/arena15.png");
            assert(arena_icon_url(arena) =~= arena_icon_prefix() + decimal(15nat) + ".png"@);
        },
        ClashRoyaleArena::ChallengerII => {
            reveal_strlit("https://raw.githubusercontent.com/RoyaleAPI/cr-api-assets/master/arenas/arena16.png");
            assert(arena_icon_url(arena) =~= arena_icon_prefix() + decimal(16nat) + ".png"@);
        },
        ClashRoyaleArena::ChallengerIII => {
            reveal_strlit("https://raw.githubusercontent.com/RoyaleAPI/cr-api-assets/master/arenas/arena17.png");
            assert(arena_icon_url(arena) =~= arena_icon_prefix() + decimal(17nat) + ".png"@);
        },
        ClashRoyaleArena::MasterI => {
            reveal_strlit("https://raw.githubusercontent.com/RoyaleAPI/cr-api-assets/master/arenas/arena18.png");
            assert(arena_icon_url(arena) =~= arena_icon_prefix() + decimal(18nat) + ".png"@);
        },
        ClashRoyaleArena::MasterII => {
            reveal_strlit("https://raw.githubusercontent.com/RoyaleAPI/cr-api-assets/master/arenas/arena19.png");
            assert(arena_icon_url(arena) =~= arena_icon_prefix() + decimal(19nat) + ".png"@);
        },
        ClashRoyaleArena::MasterIII => {
            reveal_strlit("https://raw.githubusercontent.com/RoyaleAPI/cr-api-assets/master/arenas/arena20.png");
            assert(arena_icon_url(arena) =~= arena_icon_prefix() + decimal(20nat) + ".png"@);
        },
        ClashRoyaleArena::Champion => {
            reveal_strlit("https://raw.githubusercontent.com/RoyaleAPI/cr-api-assets/master/arenas/arena21.png");
            assert(arena_icon_url(arena) =~= arena_icon_prefix() + decimal(21nat) + ".png"@);
        },
        ClashRoyaleArena::GrandChampion => {
            reveal_strlit("https://raw.githubusercontent.com/RoyaleAPI/cr-api-assets/master/arenas/arena22.png");
            assert(arena_icon_url(arena) =~= arena_icon_prefix() + decimal(22nat) + ".png"@);
        },
        ClashRoyaleArena::RoyalChampion => {
            reveal_strlit("https://raw.githubusercontent.com/RoyaleAPI/cr-api-assets/master/arenas/arena23.png");
            assert(arena_icon_url(arena) =~= arena_icon_prefix() + decimal(23nat) + ".png"@);
        },
        ClashRoyaleArena::UltimateChampion => {
            reveal_strlit("https://raw.githubusercontent.com/RoyaleAPI/cr-api-assets/master/arenas/arena24.png");
            assert(arena_icon_url(arena) =~= arena_icon_prefix() + decimal(24nat) + ".png"@);
        },
    }
}


/// The identifiers the game gives its arenas, listed in the order in which a
/// player reaches them.
pub open spec fn game_arena_ids() -> Seq<u64> {
    seq![
        54000001u64,
        54000002u64,
        54000003u64,
        54000004u64,
        54000005u64,
        54000006u64,
        54000008u64,
        54000009u64,
        54000010u64,
        54000007u64,
        54000024u64,
        54000011u64,
        54000055u64,
        54000056u64,
        54000057u64,
        54000013u64,
        54000014u64,
        54000015u64,
        54000016u64,
        54000017u64,
        54000018u64,
        54000019u64,
        54000020u64,
        54000031u64,
    ]
}

/// The names the game gives its arenas, listed in the order in which a
/// player reaches them.
pub open spec fn game_arena_names() -> Seq<Seq<char>> {
    seq![
        "Goblin Stadium"@,
        "Bone Pit"@,
        "Barbarian Bowl"@,
        "P.E.K.K.A's Playhouse"@,
        "Spell Valley"@,
        "Builder's Workshop"@,
        "Royal Arena"@,
        "Frozen Peak"@,
        "Jungle Arena"@,
        "Hog Mountain"@,
        "Electro Valley"@,
        "Spooky Town"@,
        "Rascal's Hideout"@,
        "Serenity Peak"@,
        "Legendary Arena"@,
        "Challenger II"@,
        "Challenger III"@,
        "Master I"@,
        "Master II"@,
        "Master III"@,
        "Champion"@,
        "Grand Champion"@,
        "Royal Champion"@,
        "Ultimate Champion"@,
    ]
}

/// Each arena carries the identifier the game gives the arena of its order,
/// and that identifier is read back as the arena.
pub proof fn lemma_arena_game_id(arena: ClashRoyaleArena)
    ensures
        1 <= arena_order(arena) <= game_arena_ids().len(),
        arena_id(arena) == game_arena_ids()[arena_order(arena) - 1],
        arena_from_id(game_arena_ids()[arena_order(arena) - 1]) == Ok::<ClashRoyaleArena, ()>(arena),
{
}

/// An identifier is read as an arena exactly when the game gives it to one,
/// and then as the arena that carries it.
pub proof fn lemma_arena_from_game_id(id: u64)
    ensures
        arena_from_id(id) is Ok <==> game_arena_ids().contains(id),
        arena_from_id(id) matches Ok(arena) ==> arena_id(arena) == id,
{
    if arena_from_id(id) is Ok {
        let arena = arena_from_id(id)->Ok_0;
        assert(game_arena_ids()[arena_order(arena) - 1] == id);
    } else if game_arena_ids().contains(id) {
        let i = choose|i: int| 0 <= i < game_arena_ids().len() && game_arena_ids()[i] == id;
        assert(arena_from_id(game_arena_ids()[i]) is Ok);
    }
}

/// The subtitle of an arena is the name the game gives the arena of its
/// order.
pub proof fn lemma_arena_subtitle_by_order(arena: ClashRoyaleArena)
    ensures
        arena_subtitle(arena) == game_arena_names()[arena_order(arena) - 1],
{
}

/// The first fourteen arenas are titled by their order: `Arena <order>`.
pub proof fn lemma_arena_title_by_order(arena: ClashRoyaleArena)
    requires
        arena_order(arena) <= 14,
    ensures
        arena_title(arena) == "Arena "@ + decimal(arena_order(arena) as nat),
{
    reveal_strlit("Arena ");
    reveal_with_fuel(decimal, 2);
    match arena {
        ClashRoyaleArena::Arena1 => {
            reveal_strlit("Arena 1");
            assert(arena_title(arena) =~= "Arena "@ + decimal(1nat));
        },
        ClashRoyaleArena::Arena2 => {
            reveal_strlit("Arena 2");
            assert(arena_title(arena) =~= "Arena "@ + decimal(2nat));
        },
        ClashRoyaleArena::Arena3 => {
            reveal_strlit("Arena 3");
            assert(arena_title(arena) =~= "Arena "@ + decimal(3nat));
        },
        ClashRoyaleArena::Arena4 => {
            reveal_strlit("Arena 4");
            assert(arena_title(arena) =~= "Arena "@ + decimal(4nat));
        },
        ClashRoyaleArena::Arena5 => {
            reveal_strlit("Arena 5");
            assert(arena_title(arena) =~= "Arena "@ + decimal(5nat));
        },
        ClashRoyaleArena::Arena6 => {
            reveal_strlit("Arena 6");
            assert(arena_title(arena) =~= "Arena "@ + decimal(6nat));
        },
        ClashRoyaleArena::Arena7 => {
            reveal_strlit("Arena 7");
            assert(arena_title(arena) =~= "Arena "@ + decimal(7nat));
        },
        ClashRoyaleArena::Arena8 => {
            reveal_strlit("Arena 8");
            assert(arena_title(arena) =~= "Arena "@ + decimal(8nat));
        },
        ClashRoyaleArena::Arena9 => {
            reveal_strlit("Arena 9");
            assert(arena_title(arena) =~= "Arena "@ + decimal(9nat));
        },
        ClashRoyaleArena::Arena10 => {
            reveal_strlit("Arena 10");
            assert(arena_title(arena) =~= "Arena "@ + decimal(10nat));
        },
        ClashRoyaleArena::Arena11 => {
            reveal_strlit("Arena 11");
            assert(arena_title(arena) =~= "Arena "@ + decimal(11nat));
        },
        ClashRoyaleArena::Arena12 => {
            reveal_strlit("Arena 12");
            assert(arena_title(arena) =~= "Arena "@ + decimal(12nat));
        },
        ClashRoyaleArena::Arena13 => {
            reveal_strlit("Arena 13");
            assert(arena_title(arena) =~= "Arena "@ + decimal(13nat));
        },
        ClashRoyaleArena::Arena14 => {
            reveal_strlit("Arena 14");
            assert(arena_title(arena) =~= "Arena "@ + decimal(14nat));
        },
        _ => {},
    }
}

} // verus!
