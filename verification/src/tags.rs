//! The per-cell classification vocabulary: a coarse terrain tag and a
//! fine biome tag.
//!
//! `Biome`'s declaration order is significant: it is the stable
//! enumeration order used by the smoother to break ties between equally
//! frequent neighbouring biomes, so the result does not depend on any
//! hash-map iteration order.

use vstd::prelude::*;

verus! {

/// Coarse per-cell terrain classification, derived from raw (not
/// latitude-adjusted) elevation alone.
#[derive(Clone, Copy, Debug, PartialEq, Eq, Structural)]
pub enum Terrain {
    Water,
    Land,
    Snow,
}

/// Fine per-cell ecological classification.
///
/// `Coast`, `Beach`, `Swamp`, `Tundra`, `Taiga` and `Desert` are part of
/// the vocabulary (and of the colour table) but are never produced by the
/// classifier; they are kept for callers and for future classification
/// rules, not as error cases.
#[derive(Clone, Copy, Debug, PartialEq, Eq, Structural)]
pub enum Biome {
    Ocean,
    Coast,
    Beach,
    Grassland,
    Forest,
    Jungle,
    Rainforest,
    Swamp,
    Tundra,
    Taiga,
    Mountain,
    Highland,
    Hill,
    Desert,
    Steppe,
    Ice,
}

/// How many biome variants there are.
pub const BIOME_COUNT: usize = 16;

/// The position of a biome in the stable enumeration order.
pub open spec fn spec_biome_index(b: Biome) -> int {
    match b {
        Biome::Ocean => 0,
        Biome::Coast => 1,
        Biome::Beach => 2,
        Biome::Grassland => 3,
        Biome::Forest => 4,
        Biome::Jungle => 5,
        Biome::Rainforest => 6,
        Biome::Swamp => 7,
        Biome::Tundra => 8,
        Biome::Taiga => 9,
        Biome::Mountain => 10,
        Biome::Highland => 11,
        Biome::Hill => 12,
        Biome::Desert => 13,
        Biome::Steppe => 14,
        Biome::Ice => 15,
    }
}

/// The biome at a position of the stable enumeration order.
/// Out-of-range positions map to `Ocean` so the function is total.
pub open spec fn spec_biome_of_index(i: int) -> Biome {
    if i == 1 {
        Biome::Coast
    } else if i == 2 {
        Biome::Beach
    } else if i == 3 {
        Biome::Grassland
    } else if i == 4 {
        Biome::Forest
    } else if i == 5 {
        Biome::Jungle
    } else if i == 6 {
        Biome::Rainforest
    } else if i == 7 {
        Biome::Swamp
    } else if i == 8 {
        Biome::Tundra
    } else if i == 9 {
        Biome::Taiga
    } else if i == 10 {
        Biome::Mountain
    } else if i == 11 {
        Biome::Highland
    } else if i == 12 {
        Biome::Hill
    } else if i == 13 {
        Biome::Desert
    } else if i == 14 {
        Biome::Steppe
    } else if i == 15 {
        Biome::Ice
    } else {
        Biome::Ocean
    }
}

/// The two enumeration maps invert each other.
pub proof fn lemma_biome_index_roundtrip(b: Biome)
    ensures
        spec_biome_of_index(spec_biome_index(b)) == b,
        0 <= spec_biome_index(b) < BIOME_COUNT,
{
}

impl Biome {
    /// The position of this biome in the stable enumeration order.
    pub fn index(self) -> (i: usize)
        ensures
            i == spec_biome_index(self),
            i < BIOME_COUNT,
    {
        match self {
            Biome::Ocean => 0,
            Biome::Coast => 1,
            Biome::Beach => 2,
            Biome::Grassland => 3,
            Biome::Forest => 4,
            Biome::Jungle => 5,
            Biome::Rainforest => 6,
            Biome::Swamp => 7,
            Biome::Tundra => 8,
            Biome::Taiga => 9,
            Biome::Mountain => 10,
            Biome::Highland => 11,
            Biome::Hill => 12,
            Biome::Desert => 13,
            Biome::Steppe => 14,
            Biome::Ice => 15,
        }
    }

    /// The biome at a position of the stable enumeration order.
    pub fn of_index(i: usize) -> (b: Biome)
        ensures
            b == spec_biome_of_index(i as int),
    {
        if i == 1 {
            Biome::Coast
        } else if i == 2 {
            Biome::Beach
        } else if i == 3 {
            Biome::Grassland
        } else if i == 4 {
            Biome::Forest
        } else if i == 5 {
            Biome::Jungle
        } else if i == 6 {
            Biome::Rainforest
        } else if i == 7 {
            Biome::Swamp
        } else if i == 8 {
            Biome::Tundra
        } else if i == 9 {
            Biome::Taiga
        } else if i == 10 {
            Biome::Mountain
        } else if i == 11 {
            Biome::Highland
        } else if i == 12 {
            Biome::Hill
        } else if i == 13 {
            Biome::Desert
        } else if i == 14 {
            Biome::Steppe
        } else if i == 15 {
            Biome::Ice
        } else {
            Biome::Ocean
        }
    }

    /// A human-readable name for this biome.
    pub fn name(self) -> (r: &'static str)
        ensures
            r@ == spec_biome_name(self),
    {
        match self {
            Biome::Ocean => "Ocean",
            Biome::Coast => "Coast",
            Biome::Beach => "Beach",
            Biome::Grassland => "Grassland",
            Biome::Forest => "Forest",
            Biome::Jungle => "Jungle",
            Biome::Rainforest => "Rainforest",
            Biome::Swamp => "Swamp",
            Biome::Tundra => "Tundra",
            Biome::Taiga => "Taiga",
            Biome::Mountain => "Mountain",
            Biome::Highland => "Highland",
            Biome::Hill => "Hill",
            Biome::Desert => "Desert",
            Biome::Steppe => "Steppe",
            Biome::Ice => "Ice",
        }
    }
}

/// The human-readable name of each biome.
pub open spec fn spec_biome_name(b: Biome) -> Seq<char> {
    match b {
        Biome::Ocean => "Ocean"@,
        Biome::Coast => "Coast"@,
        Biome::Beach => "Beach"@,
        Biome::Grassland => "Grassland"@,
        Biome::Forest => "Forest"@,
        Biome::Jungle => "Jungle"@,
        Biome::Rainforest => "Rainforest"@,
        Biome::Swamp => "Swamp"@,
        Biome::Tundra => "Tundra"@,
        Biome::Taiga => "Taiga"@,
        Biome::Mountain => "Mountain"@,
        Biome::Highland => "Highland"@,
        Biome::Hill => "Hill"@,
        Biome::Desert => "Desert"@,
        Biome::Steppe => "Steppe"@,
        Biome::Ice => "Ice"@,
    }
}

impl Terrain {
    /// The glyph used when a map is drawn as text: `~` for water and
    /// `#` for land. Snow cells have no glyph.
    pub fn glyph(self) -> (c: char)
        requires
            self != Terrain::Snow,
        ensures
            self == Terrain::Water ==> c == '~',
            self == Terrain::Land ==> c == '#',
    {
        match self {
            Terrain::Water => '~',
            Terrain::Land => '#',
            Terrain::Snow => ' ',
        }
    }
}

} // verus!
