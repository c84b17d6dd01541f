//! Competitive ranks and divisions.

use vstd::prelude::*;

verus! {

/// A competitive rank, from unranked up to Supersonic Legend.
#[derive(Debug, Clone, Copy, PartialEq, Eq, Structural)]
pub enum Rank {
    Unranked,
    Bronze1,
    Bronze2,
    Bronze3,
    Silver1,
    Silver2,
    Silver3,
    Gold1,
    Gold2,
    Gold3,
    Plat1,
    Plat2,
    Plat3,
    Diamond1,
    Diamond2,
    Diamond3,
    Champ1,
    Champ2,
    Champ3,
    GC1,
    GC2,
    GC3,
    Ssl,
}

/// The tier number of a rank, as the rank service reports it (0 is unranked).
pub open spec fn tier_of(r: Rank) -> nat {
    match r {
        Rank::Unranked => 0,
        Rank::Bronze1 => 1,
        Rank::Bronze2 => 2,
        Rank::Bronze3 => 3,
        Rank::Silver1 => 4,
        Rank::Silver2 => 5,
        Rank::Silver3 => 6,
        Rank::Gold1 => 7,
        Rank::Gold2 => 8,
        Rank::Gold3 => 9,
        Rank::Plat1 => 10,
        Rank::Plat2 => 11,
        Rank::Plat3 => 12,
        Rank::Diamond1 => 13,
        Rank::Diamond2 => 14,
        Rank::Diamond3 => 15,
        Rank::Champ1 => 16,
        Rank::Champ2 => 17,
        Rank::Champ3 => 18,
        Rank::GC1 => 19,
        Rank::GC2 => 20,
        Rank::GC3 => 21,
        Rank::Ssl => 22,
    }
}

/// The display name of a rank.
pub open spec fn rank_name(r: Rank) -> Seq<char> {
    match r {
        Rank::Unranked => "Unranked"@,
        Rank::Bronze1 => "Bronze I"@,
        Rank::Bronze2 => "Bronze II"@,
        Rank::Bronze3 => "Bronze III"@,
        Rank::Silver1 => "Silver I"@,
        Rank::Silver2 => "Silver II"@,
        Rank::Silver3 => "Silver III"@,
        Rank::Gold1 => "Gold I"@,
        Rank::Gold2 => "Gold II"@,
        Rank::Gold3 => "Gold III"@,
        Rank::Plat1 => "Platinum I"@,
        Rank::Plat2 => "Platinum II"@,
        Rank::Plat3 => "Platinum III"@,
        Rank::Diamond1 => "Diamond I"@,
        Rank::Diamond2 => "Diamond II"@,
        Rank::Diamond3 => "Diamond III"@,
        Rank::Champ1 => "Champion I"@,
        Rank::Champ2 => "Champion II"@,
        Rank::Champ3 => "Champion III"@,
        Rank::GC1 => "Grand Champion I"@,
        Rank::GC2 => "Grand Champion II"@,
        Rank::GC3 => "Grand Champion III"@,
        Rank::Ssl => "Supersonic Legend"@,
    }
}

/// The rank a tier number stands for, if it stands for one.
pub open spec fn rank_of_tier(t: int) -> Option<Rank> {
    if t == 0 {
        Some(Rank::Unranked)
    } else if t == 1 {
        Some(Rank::Bronze1)
    } else if t == 2 {
        Some(Rank::Bronze2)
    } else if t == 3 {
        Some(Rank::Bronze3)
    } else if t == 4 {
        Some(Rank::Silver1)
    } else if t == 5 {
        Some(Rank::Silver2)
    } else if t == 6 {
        Some(Rank::Silver3)
    } else if t == 7 {
        Some(Rank::Gold1)
    } else if t == 8 {
        Some(Rank::Gold2)
    } else if t == 9 {
        Some(Rank::Gold3)
    } else if t == 10 {
        Some(Rank::Plat1)
    } else if t == 11 {
        Some(Rank::Plat2)
    } else if t == 12 {
        Some(Rank::Plat3)
    } else if t == 13 {
        Some(Rank::Diamond1)
    } else if t == 14 {
        Some(Rank::Diamond2)
    } else if t == 15 {
        Some(Rank::Diamond3)
    } else if t == 16 {
        Some(Rank::Champ1)
    } else if t == 17 {
        Some(Rank::Champ2)
    } else if t == 18 {
        Some(Rank::Champ3)
    } else if t == 19 {
        Some(Rank::GC1)
    } else if t == 20 {
        Some(Rank::GC2)
    } else if t == 21 {
        Some(Rank::GC3)
    } else if t == 22 {
        Some(Rank::Ssl)
    } else {
        None
    }
}

/// The rank estimated from a matchmaking rating (free-to-play season 23, solo duel table).
pub open spec fn rank_for_mmr(mmr: int) -> Rank {
    if mmr <= 156 {
        Rank::Bronze1
    } else if mmr <= 213 {
        Rank::Bronze2
    } else if mmr <= 274 {
        Rank::Bronze3
    } else if mmr <= 334 {
        Rank::Silver1
    } else if mmr <= 394 {
        Rank::Silver2
    } else if mmr <= 454 {
        Rank::Silver3
    } else if mmr <= 514 {
        Rank::Gold1
    } else if mmr <= 574 {
        Rank::Gold2
    } else if mmr <= 634 {
        Rank::Gold3
    } else if mmr <= 694 {
        Rank::Plat1
    } else if mmr <= 753 {
        Rank::Plat2
    } else if mmr <= 808 {
        Rank::Plat3
    } else if mmr <= 874 {
        Rank::Diamond1
    } else if mmr <= 930 {
        Rank::Diamond2
    } else if mmr <= 994 {
        Rank::Diamond3
    } else if mmr <= 1052 {
        Rank::Champ1
    } else if mmr <= 1114 {
        Rank::Champ2
    } else if mmr <= 1170 {
        Rank::Champ3
    } else if mmr <= 1232 {
        Rank::GC1
    } else if mmr <= 1295 {
        Rank::GC2
    } else if mmr <= 1351 {
        Rank::GC3
    } else {
        Rank::Ssl
    }
}

impl Rank {
    pub fn as_str(&self) -> (r: &'static str)
        ensures
            r@ == rank_name(*self),
    {
        match self {
            Rank::Unranked => "Unranked",
            Rank::Bronze1 => "Bronze I",
            Rank::Bronze2 => "Bronze II",
            Rank::Bronze3 => "Bronze III",
            Rank::Silver1 => "Silver I",
            Rank::Silver2 => "Silver II",
            Rank::Silver3 => "Silver III",
            Rank::Gold1 => "Gold I",
            Rank::Gold2 => "Gold II",
            Rank::Gold3 => "Gold III",
            Rank::Plat1 => "Platinum I",
            Rank::Plat2 => "Platinum II",
            Rank::Plat3 => "Platinum III",
            Rank::Diamond1 => "Diamond I",
            Rank::Diamond2 => "Diamond II",
            Rank::Diamond3 => "Diamond III",
            Rank::Champ1 => "Champion I",
            Rank::Champ2 => "Champion II",
            Rank::Champ3 => "Champion III",
            Rank::GC1 => "Grand Champion I",
            Rank::GC2 => "Grand Champion II",
            Rank::GC3 => "Grand Champion III",
            Rank::Ssl => "Supersonic Legend",
        }
    }

    /// The rank with the given tier number; `None` above the highest tier.
    pub fn try_from_tier(tier: u8) -> (r: Option<Rank>)
        ensures
            r == rank_of_tier(tier as int),
    {
        match tier {
            0 => Some(Rank::Unranked),
            1 => Some(Rank::Bronze1),
            2 => Some(Rank::Bronze2),
            3 => Some(Rank::Bronze3),
            4 => Some(Rank::Silver1),
            5 => Some(Rank::Silver2),
            6 => Some(Rank::Silver3),
            7 => Some(Rank::Gold1),
            8 => Some(Rank::Gold2),
            9 => Some(Rank::Gold3),
            10 => Some(Rank::Plat1),
            11 => Some(Rank::Plat2),
            12 => Some(Rank::Plat3),
            13 => Some(Rank::Diamond1),
            14 => Some(Rank::Diamond2),
            15 => Some(Rank::Diamond3),
            16 => Some(Rank::Champ1),
            17 => Some(Rank::Champ2),
            18 => Some(Rank::Champ3),
            19 => Some(Rank::GC1),
            20 => Some(Rank::GC2),
            21 => Some(Rank::GC3),
            22 => Some(Rank::Ssl),
            _ => None,
        }
    }

    /// The rank with the given tier number.
    pub fn from_tier(tier: u8) -> (r: Rank)
        requires
            tier <= 22,
        ensures
            rank_of_tier(tier as int) == Some(r),
            (r == Rank::Unranked) == (tier == 0),
    {
        match Rank::try_from_tier(tier) {
            Some(r) => r,
            None => Rank::Unranked,
        }
    }

    /// The tier number of this rank.
    pub fn tier(&self) -> (r: u8)
        ensures
            r as nat == tier_of(*self),
    {
        match self {
            Rank::Unranked => 0,
            Rank::Bronze1 => 1,
            Rank::Bronze2 => 2,
            Rank::Bronze3 => 3,
            Rank::Silver1 => 4,
            Rank::Silver2 => 5,
            Rank::Silver3 => 6,
            Rank::Gold1 => 7,
            Rank::Gold2 => 8,
            Rank::Gold3 => 9,
            Rank::Plat1 => 10,
            Rank::Plat2 => 11,
            Rank::Plat3 => 12,
            Rank::Diamond1 => 13,
            Rank::Diamond2 => 14,
            Rank::Diamond3 => 15,
            Rank::Champ1 => 16,
            Rank::Champ2 => 17,
            Rank::Champ3 => 18,
            Rank::GC1 => 19,
            Rank::GC2 => 20,
            Rank::GC3 => 21,
            Rank::Ssl => 22,
        }
    }

    pub fn estimate_from_mmr(mmr: i16) -> (r: Rank)
        ensures
            r == rank_for_mmr(mmr as int),
    {
        if mmr <= 156 {
            Rank::Bronze1
        } else if mmr <= 213 {
            Rank::Bronze2
        } else if mmr <= 274 {
            Rank::Bronze3
        } else if mmr <= 334 {
            Rank::Silver1
        } else if mmr <= 394 {
            Rank::Silver2
        } else if mmr <= 454 {
            Rank::Silver3
        } else if mmr <= 514 {
            Rank::Gold1
        } else if mmr <= 574 {
            Rank::Gold2
        } else if mmr <= 634 {
            Rank::Gold3
        } else if mmr <= 694 {
            Rank::Plat1
        } else if mmr <= 753 {
            Rank::Plat2
        } else if mmr <= 808 {
            Rank::Plat3
        } else if mmr <= 874 {
            Rank::Diamond1
        } else if mmr <= 930 {
            Rank::Diamond2
        } else if mmr <= 994 {
            Rank::Diamond3
        } else if mmr <= 1052 {
            Rank::Champ1
        } else if mmr <= 1114 {
            Rank::Champ2
        } else if mmr <= 1170 {
            Rank::Champ3
        } else if mmr <= 1232 {
            Rank::GC1
        } else if mmr <= 1295 {
            Rank::GC2
        } else if mmr <= 1351 {
            Rank::GC3
        } else {
            Rank::Ssl
        }
    }
}

/// The colour a rank is drawn in: one per rank group, named after the palette's colours.
#[derive(Debug, Clone, Copy, PartialEq, Eq, Structural)]
pub enum RankColor {
    DarkGray,
    Brown,
    Gray,
    Yellow,
    LightBlue,
    Blue,
    Purple,
    Red,
    White,
}

/// The colour of a rank: unranked is dark gray, each group of three tiers from Bronze to Grand
/// Champion has its own colour, and Supersonic Legend is white.
pub open spec fn color_of(r: Rank) -> RankColor {
    let t = tier_of(r);
    if t == 0 {
        RankColor::DarkGray
    } else if t <= 3 {
        RankColor::Brown
    } else if t <= 6 {
        RankColor::Gray
    } else if t <= 9 {
        RankColor::Yellow
    } else if t <= 12 {
        RankColor::LightBlue
    } else if t <= 15 {
        RankColor::Blue
    } else if t <= 18 {
        RankColor::Purple
    } else if t <= 21 {
        RankColor::Red
    } else {
        RankColor::White
    }
}

impl Rank {
    /// The colour this rank is drawn in.
    pub fn to_color(&self) -> (r: RankColor)
        ensures
            r == color_of(*self),
    {
        match self {
            Rank::Unranked => RankColor::DarkGray,
            Rank::Bronze1 | Rank::Bronze2 | Rank::Bronze3 => RankColor::Brown,
            Rank::Silver1 | Rank::Silver2 | Rank::Silver3 => RankColor::Gray,
            Rank::Gold1 | Rank::Gold2 | Rank::Gold3 => RankColor::Yellow,
            Rank::Plat1 | Rank::Plat2 | Rank::Plat3 => RankColor::LightBlue,
            Rank::Diamond1 | Rank::Diamond2 | Rank::Diamond3 => RankColor::Blue,
            Rank::Champ1 | Rank::Champ2 | Rank::Champ3 => RankColor::Purple,
            Rank::GC1 | Rank::GC2 | Rank::GC3 => RankColor::Red,
            Rank::Ssl => RankColor::White,
        }
    }
}

/// A division within a rank.
#[derive(Debug, Clone, Copy, PartialEq, Eq, Structural)]
pub enum Division {
    NoDivision,
    One,
    Two,
    Three,
    Four,
}

/// The division a number stands for; numbers without a division read as `NoDivision`.
pub open spec fn division_of(n: int) -> Division {
    if n == 1 {
        Division::One
    } else if n == 2 {
        Division::Two
    } else if n == 3 {
        Division::Three
    } else if n == 4 {
        Division::Four
    } else {
        Division::NoDivision
    }
}

/// The suffix shown after a rank name for a division.
pub open spec fn division_text(d: Division) -> Seq<char> {
    match d {
        Division::NoDivision => seq![],
        Division::One => " Div I"@,
        Division::Two => " Div II"@,
        Division::Three => " Div III"@,
        Division::Four => " Div IV"@,
    }
}

impl Division {
    /// The division with the given number (0 and unknown numbers give `NoDivision`).
    pub fn from_number(n: u8) -> (r: Division)
        ensures
            r == division_of(n as int),
    {
        match n {
            1 => Division::One,
            2 => Division::Two,
            3 => Division::Three,
            4 => Division::Four,
            _ => Division::NoDivision,
        }
    }

    /// The suffix shown after a rank name (empty for no division).
    pub fn to_string(&self) -> (r: String)
        ensures
            r@ == division_text(*self),
    {
        match self {
            Division::NoDivision => String::new(),
            Division::One => " Div I".to_owned(),
            Division::Two => " Div II".to_owned(),
            Division::Three => " Div III".to_owned(),
            Division::Four => " Div IV".to_owned(),
        }
    }
}

/// The estimated rank never decreases as the rating grows.
pub proof fn lemma_estimate_monotone(a: int, b: int)
    requires
        a <= b,
    ensures
        tier_of(rank_for_mmr(a)) <= tier_of(rank_for_mmr(b)),
{
}

/// An estimate is never `Unranked`: every rating maps to a real rank.
pub proof fn lemma_estimate_is_ranked(mmr: int)
    ensures
        rank_for_mmr(mmr) != Rank::Unranked,
{
}

/// Reading a rank's own tier number gives the rank back.
pub proof fn lemma_tier_round_trip(r: Rank)
    ensures
        rank_of_tier(tier_of(r) as int) == Some(r),
{
}

/// The first letter and the length of a rank's name; no two ranks share both.
pub open spec fn name_key(r: Rank) -> (char, nat) {
    match r {
        Rank::Unranked => ('U', 8),
        Rank::Bronze1 => ('B', 8),
        Rank::Bronze2 => ('B', 9),
        Rank::Bronze3 => ('B', 10),
        Rank::Silver1 => ('S', 8),
        Rank::Silver2 => ('S', 9),
        Rank::Silver3 => ('S', 10),
        Rank::Gold1 => ('G', 6),
        Rank::Gold2 => ('G', 7),
        Rank::Gold3 => ('G', 8),
        Rank::Plat1 => ('P', 10),
        Rank::Plat2 => ('P', 11),
        Rank::Plat3 => ('P', 12),
        Rank::Diamond1 => ('D', 9),
        Rank::Diamond2 => ('D', 10),
        Rank::Diamond3 => ('D', 11),
        Rank::Champ1 => ('C', 10),
        Rank::Champ2 => ('C', 11),
        Rank::Champ3 => ('C', 12),
        Rank::GC1 => ('G', 16),
        Rank::GC2 => ('G', 17),
        Rank::GC3 => ('G', 18),
        Rank::Ssl => ('S', 17),
    }
}

/// A rank's name starts with the letter and has the length of its key.
proof fn lemma_name_key(r: Rank)
    ensures
        rank_name(r).len() == name_key(r).1,
        rank_name(r)[0] == name_key(r).0,
{
    match r {
        Rank::Unranked => {
            reveal_strlit("Unranked");
        },
        Rank::Bronze1 => {
            reveal_strlit("Bronze I");
        },
        Rank::Bronze2 => {
            reveal_strlit("Bronze II");
        },
        Rank::Bronze3 => {
            reveal_strlit("Bronze III");
        },
        Rank::Silver1 => {
            reveal_strlit("Silver I");
        },
        Rank::Silver2 => {
            reveal_strlit("Silver II");
        },
        Rank::Silver3 => {
            reveal_strlit("Silver III");
        },
        Rank::Gold1 => {
            reveal_strlit("Gold I");
        },
        Rank::Gold2 => {
            reveal_strlit("Gold II");
        },
        Rank::Gold3 => {
            reveal_strlit("Gold III");
        },
        Rank::Plat1 => {
            reveal_strlit("Platinum I");
        },
        Rank::Plat2 => {
            reveal_strlit("Platinum II");
        },
        Rank::Plat3 => {
            reveal_strlit("Platinum III");
        },
        Rank::Diamond1 => {
            reveal_strlit("Diamond I");
        },
        Rank::Diamond2 => {
            reveal_strlit("Diamond II");
        },
        Rank::Diamond3 => {
            reveal_strlit("Diamond III");
        },
        Rank::Champ1 => {
            reveal_strlit("Champion I");
        },
        Rank::Champ2 => {
            reveal_strlit("Champion II");
        },
        Rank::Champ3 => {
            reveal_strlit("Champion III");
        },
        Rank::GC1 => {
            reveal_strlit("Grand Champion I");
        },
        Rank::GC2 => {
            reveal_strlit("Grand Champion II");
        },
        Rank::GC3 => {
            reveal_strlit("Grand Champion III");
        },
        Rank::Ssl => {
            reveal_strlit("Supersonic Legend");
        },
    }
}

/// Rank names are never empty, and no two ranks have the same name.
pub proof fn lemma_rank_names_distinct(a: Rank, b: Rank)
    ensures
        rank_name(a).len() > 0,
        a != b ==> rank_name(a) != rank_name(b),
{
    lemma_name_key(a);
    lemma_name_key(b);
    if a != b && rank_name(a) == rank_name(b) {
        assert(name_key(a) == name_key(b));
    }
}

} // verus!
