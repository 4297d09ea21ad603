use vstd::prelude::*;
use vstd::pervasive::unreached;
use vstd::string::StringExecFns;
use crate::rng::SimError;
use crate::text::{spec_decimal, to_decimal};

verus! {

/// Cardinality of `LocationType`.
pub const NUM_LOCATIONS: u64 = 48;

/// Cardinality of `ElementAdjective`.
pub const NUM_ELEMENTS: u64 = 31;

/// Cardinality of `Noun`.
pub const NUM_NOUNS: u64 = 24;


/// Where a dungeon lies.
#[derive(Clone, Copy, Debug, PartialEq, Eq, Structural)]
pub enum LocationType {
    Cave,
    Ravine,
    Valley,
    Land,
    Plains,
    Hills,
    Path,
    Realm,
    Mountains,
    Canyon,
    Desert,
    Jungle,
    Cliffs,
    Ridge,
    Badlands,
    Mesa,
    Divide,
    Cavern,
    Tree,
    Castle,
    Temple,
    Ruins,
    Mansion,
    Cemetery,
    Prison,
    Shrine,
    Factory,
    Laboratory,
    Abattoir,
    Hall,
    Bunker,
    Altar,
    Remains,
    Pond,
    Canal,
    Sea,
    Lake,
    Geyser,
    Marsh,
    Island,
    Cove,
    Isthmus,
    Shoal,
    Glacier,
    Fjord,
    Skies,
    Void,
    Volcano,
}

/// The `LocationType` member at ordinal position `i` of the declared order.
pub open spec fn spec_location_of_index(i: int) -> LocationType {
    if i == 0 {
        LocationType::Cave
    } else if i == 1 {
        LocationType::Ravine
    } else if i == 2 {
        LocationType::Valley
    } else if i == 3 {
        LocationType::Land
    } else if i == 4 {
        LocationType::Plains
    } else if i == 5 {
        LocationType::Hills
    } else if i == 6 {
        LocationType::Path
    } else if i == 7 {
        LocationType::Realm
    } else if i == 8 {
        LocationType::Mountains
    } else if i == 9 {
        LocationType::Canyon
    } else if i == 10 {
        LocationType::Desert
    } else if i == 11 {
        LocationType::Jungle
    } else if i == 12 {
        LocationType::Cliffs
    } else if i == 13 {
        LocationType::Ridge
    } else if i == 14 {
        LocationType::Badlands
    } else if i == 15 {
        LocationType::Mesa
    } else if i == 16 {
        LocationType::Divide
    } else if i == 17 {
        LocationType::Cavern
    } else if i == 18 {
        LocationType::Tree
    } else if i == 19 {
        LocationType::Castle
    } else if i == 20 {
        LocationType::Temple
    } else if i == 21 {
        LocationType::Ruins
    } else if i == 22 {
        LocationType::Mansion
    } else if i == 23 {
        LocationType::Cemetery
    } else if i == 24 {
        LocationType::Prison
    } else if i == 25 {
        LocationType::Shrine
    } else if i == 26 {
        LocationType::Factory
    } else if i == 27 {
        LocationType::Laboratory
    } else if i == 28 {
        LocationType::Abattoir
    } else if i == 29 {
        LocationType::Hall
    } else if i == 30 {
        LocationType::Bunker
    } else if i == 31 {
        LocationType::Altar
    } else if i == 32 {
        LocationType::Remains
    } else if i == 33 {
        LocationType::Pond
    } else if i == 34 {
        LocationType::Canal
    } else if i == 35 {
        LocationType::Sea
    } else if i == 36 {
        LocationType::Lake
    } else if i == 37 {
        LocationType::Geyser
    } else if i == 38 {
        LocationType::Marsh
    } else if i == 39 {
        LocationType::Island
    } else if i == 40 {
        LocationType::Cove
    } else if i == 41 {
        LocationType::Isthmus
    } else if i == 42 {
        LocationType::Shoal
    } else if i == 43 {
        LocationType::Glacier
    } else if i == 44 {
        LocationType::Fjord
    } else if i == 45 {
        LocationType::Skies
    } else if i == 46 {
        LocationType::Void
    } else {
        LocationType::Volcano
    }
}

/// Ordinal lookup into `LocationType`; an index at or above the
/// cardinality is a guarded maintenance error.
pub fn location_from_index(i: u64) -> (r: Result<LocationType, SimError>)
    ensures
        i < NUM_LOCATIONS ==> r == Result::<LocationType, SimError>::Ok(spec_location_of_index(i as int)),
        i >= NUM_LOCATIONS ==> r == Result::<LocationType, SimError>::Err(SimError::InvalidArgument),
{
    if i == 0 {
        Ok(LocationType::Cave)
    } else if i == 1 {
        Ok(LocationType::Ravine)
    } else if i == 2 {
        Ok(LocationType::Valley)
    } else if i == 3 {
        Ok(LocationType::Land)
    } else if i == 4 {
        Ok(LocationType::Plains)
    } else if i == 5 {
        Ok(LocationType::Hills)
    } else if i == 6 {
        Ok(LocationType::Path)
    } else if i == 7 {
        Ok(LocationType::Realm)
    } else if i == 8 {
        Ok(LocationType::Mountains)
    } else if i == 9 {
        Ok(LocationType::Canyon)
    } else if i == 10 {
        Ok(LocationType::Desert)
    } else if i == 11 {
        Ok(LocationType::Jungle)
    } else if i == 12 {
        Ok(LocationType::Cliffs)
    } else if i == 13 {
        Ok(LocationType::Ridge)
    } else if i == 14 {
        Ok(LocationType::Badlands)
    } else if i == 15 {
        Ok(LocationType::Mesa)
    } else if i == 16 {
        Ok(LocationType::Divide)
    } else if i == 17 {
        Ok(LocationType::Cavern)
    } else if i == 18 {
        Ok(LocationType::Tree)
    } else if i == 19 {
        Ok(LocationType::Castle)
    } else if i == 20 {
        Ok(LocationType::Temple)
    } else if i == 21 {
        Ok(LocationType::Ruins)
    } else if i == 22 {
        Ok(LocationType::Mansion)
    } else if i == 23 {
        Ok(LocationType::Cemetery)
    } else if i == 24 {
        Ok(LocationType::Prison)
    } else if i == 25 {
        Ok(LocationType::Shrine)
    } else if i == 26 {
        Ok(LocationType::Factory)
    } else if i == 27 {
        Ok(LocationType::Laboratory)
    } else if i == 28 {
        Ok(LocationType::Abattoir)
    } else if i == 29 {
        Ok(LocationType::Hall)
    } else if i == 30 {
        Ok(LocationType::Bunker)
    } else if i == 31 {
        Ok(LocationType::Altar)
    } else if i == 32 {
        Ok(LocationType::Remains)
    } else if i == 33 {
        Ok(LocationType::Pond)
    } else if i == 34 {
        Ok(LocationType::Canal)
    } else if i == 35 {
        Ok(LocationType::Sea)
    } else if i == 36 {
        Ok(LocationType::Lake)
    } else if i == 37 {
        Ok(LocationType::Geyser)
    } else if i == 38 {
        Ok(LocationType::Marsh)
    } else if i == 39 {
        Ok(LocationType::Island)
    } else if i == 40 {
        Ok(LocationType::Cove)
    } else if i == 41 {
        Ok(LocationType::Isthmus)
    } else if i == 42 {
        Ok(LocationType::Shoal)
    } else if i == 43 {
        Ok(LocationType::Glacier)
    } else if i == 44 {
        Ok(LocationType::Fjord)
    } else if i == 45 {
        Ok(LocationType::Skies)
    } else if i == 46 {
        Ok(LocationType::Void)
    } else if i == 47 {
        Ok(LocationType::Volcano)
    } else {
        Err(SimError::InvalidArgument)
    }
}

/// Display form of each `LocationType` member.
pub open spec fn spec_location_label(v: LocationType) -> Seq<char> {
    match v {
        LocationType::Cave => "Cave"@,
        LocationType::Ravine => "Ravine"@,
        LocationType::Valley => "Valley"@,
        LocationType::Land => "Land"@,
        LocationType::Plains => "Plains"@,
        LocationType::Hills => "Hills"@,
        LocationType::Path => "Path"@,
        LocationType::Realm => "Realm"@,
        LocationType::Mountains => "Mountains"@,
        LocationType::Canyon => "Canyon"@,
        LocationType::Desert => "Desert"@,
        LocationType::Jungle => "Jungle"@,
        LocationType::Cliffs => "Cliffs"@,
        LocationType::Ridge => "Ridge"@,
        LocationType::Badlands => "Badlands"@,
        LocationType::Mesa => "Mesa"@,
        LocationType::Divide => "Divide"@,
        LocationType::Cavern => "Cavern"@,
        LocationType::Tree => "Tree"@,
        LocationType::Castle => "Castle"@,
        LocationType::Temple => "Temple"@,
        LocationType::Ruins => "Ruins"@,
        LocationType::Mansion => "Mansion"@,
        LocationType::Cemetery => "Cemetery"@,
        LocationType::Prison => "Prison"@,
        LocationType::Shrine => "Shrine"@,
        LocationType::Factory => "Factory"@,
        LocationType::Laboratory => "Laboratory"@,
        LocationType::Abattoir => "Abattoir"@,
        LocationType::Hall => "Hall"@,
        LocationType::Bunker => "Bunker"@,
        LocationType::Altar => "Altar"@,
        LocationType::Remains => "Remains"@,
        LocationType::Pond => "Pond"@,
        LocationType::Canal => "Canal"@,
        LocationType::Sea => "Sea"@,
        LocationType::Lake => "Lake"@,
        LocationType::Geyser => "Geyser"@,
        LocationType::Marsh => "Marsh"@,
        LocationType::Island => "Island"@,
        LocationType::Cove => "Cove"@,
        LocationType::Isthmus => "Isthmus"@,
        LocationType::Shoal => "Shoal"@,
        LocationType::Glacier => "Glacier"@,
        LocationType::Fjord => "Fjord"@,
        LocationType::Skies => "Skies"@,
        LocationType::Void => "Void"@,
        LocationType::Volcano => "Volcano"@,
    }
}

pub fn location_label(v: LocationType) -> (r: &'static str)
    ensures
        r@ == spec_location_label(v),
{
    match v {
        LocationType::Cave => "Cave",
        LocationType::Ravine => "Ravine",
        LocationType::Valley => "Valley",
        LocationType::Land => "Land",
        LocationType::Plains => "Plains",
        LocationType::Hills => "Hills",
        LocationType::Path => "Path",
        LocationType::Realm => "Realm",
        LocationType::Mountains => "Mountains",
        LocationType::Canyon => "Canyon",
        LocationType::Desert => "Desert",
        LocationType::Jungle => "Jungle",
        LocationType::Cliffs => "Cliffs",
        LocationType::Ridge => "Ridge",
        LocationType::Badlands => "Badlands",
        LocationType::Mesa => "Mesa",
        LocationType::Divide => "Divide",
        LocationType::Cavern => "Cavern",
        LocationType::Tree => "Tree",
        LocationType::Castle => "Castle",
        LocationType::Temple => "Temple",
        LocationType::Ruins => "Ruins",
        LocationType::Mansion => "Mansion",
        LocationType::Cemetery => "Cemetery",
        LocationType::Prison => "Prison",
        LocationType::Shrine => "Shrine",
        LocationType::Factory => "Factory",
        LocationType::Laboratory => "Laboratory",
        LocationType::Abattoir => "Abattoir",
        LocationType::Hall => "Hall",
        LocationType::Bunker => "Bunker",
        LocationType::Altar => "Altar",
        LocationType::Remains => "Remains",
        LocationType::Pond => "Pond",
        LocationType::Canal => "Canal",
        LocationType::Sea => "Sea",
        LocationType::Lake => "Lake",
        LocationType::Geyser => "Geyser",
        LocationType::Marsh => "Marsh",
        LocationType::Island => "Island",
        LocationType::Cove => "Cove",
        LocationType::Isthmus => "Isthmus",
        LocationType::Shoal => "Shoal",
        LocationType::Glacier => "Glacier",
        LocationType::Fjord => "Fjord",
        LocationType::Skies => "Skies",
        LocationType::Void => "Void",
        LocationType::Volcano => "Volcano",
    }
}

/// The elemental flavour of a dungeon.
#[derive(Clone, Copy, Debug, PartialEq, Eq, Structural)]
pub enum ElementAdjective {
    Unremarkable,
    Lunar,
    Lingering,
    Mysterious,
    False,
    Abyssal,
    Dubious,
    Elegant,
    Moonlit,
    Spatial,
    Unearthly,
    Phantasmagorical,
    Confounding,
    Burning,
    Conflagrant,
    Scorching,
    Blazing,
    Purifying,
    Freezing,
    Blizzardous,
    Rainy,
    Drowning,
    Voltaic,
    Wuthering,
    Tempestuous,
    Howling,
    Worldly,
    Twilight,
    Geotic,
    Abundant,
    Crystalline,
}

/// The `ElementAdjective` member at ordinal position `i` of the declared order.
pub open spec fn spec_element_of_index(i: int) -> ElementAdjective {
    if i == 0 {
        ElementAdjective::Unremarkable
    } else if i == 1 {
        ElementAdjective::Lunar
    } else if i == 2 {
        ElementAdjective::Lingering
    } else if i == 3 {
        ElementAdjective::Mysterious
    } else if i == 4 {
        ElementAdjective::False
    } else if i == 5 {
        ElementAdjective::Abyssal
    } else if i == 6 {
        ElementAdjective::Dubious
    } else if i == 7 {
        ElementAdjective::Elegant
    } else if i == 8 {
        ElementAdjective::Moonlit
    } else if i == 9 {
        ElementAdjective::Spatial
    } else if i == 10 {
        ElementAdjective::Unearthly
    } else if i == 11 {
        ElementAdjective::Phantasmagorical
    } else if i == 12 {
        ElementAdjective::Confounding
    } else if i == 13 {
        ElementAdjective::Burning
    } else if i == 14 {
        ElementAdjective::Conflagrant
    } else if i == 15 {
        ElementAdjective::Scorching
    } else if i == 16 {
        ElementAdjective::Blazing
    } else if i == 17 {
        ElementAdjective::Purifying
    } else if i == 18 {
        ElementAdjective::Freezing
    } else if i == 19 {
        ElementAdjective::Blizzardous
    } else if i == 20 {
        ElementAdjective::Rainy
    } else if i == 21 {
        ElementAdjective::Drowning
    } else if i == 22 {
        ElementAdjective::Voltaic
    } else if i == 23 {
        ElementAdjective::Wuthering
    } else if i == 24 {
        ElementAdjective::Tempestuous
    } else if i == 25 {
        ElementAdjective::Howling
    } else if i == 26 {
        ElementAdjective::Worldly
    } else if i == 27 {
        ElementAdjective::Twilight
    } else if i == 28 {
        ElementAdjective::Geotic
    } else if i == 29 {
        ElementAdjective::Abundant
    } else {
        ElementAdjective::Crystalline
    }
}

/// Ordinal lookup into `ElementAdjective`; an index at or above the
/// cardinality is a guarded maintenance error.
pub fn element_from_index(i: u64) -> (r: Result<ElementAdjective, SimError>)
    ensures
        i < NUM_ELEMENTS ==> r == Result::<ElementAdjective, SimError>::Ok(spec_element_of_index(i as int)),
        i >= NUM_ELEMENTS ==> r == Result::<ElementAdjective, SimError>::Err(SimError::InvalidArgument),
{
    if i == 0 {
        Ok(ElementAdjective::Unremarkable)
    } else if i == 1 {
        Ok(ElementAdjective::Lunar)
    } else if i == 2 {
        Ok(ElementAdjective::Lingering)
    } else if i == 3 {
        Ok(ElementAdjective::Mysterious)
    } else if i == 4 {
        Ok(ElementAdjective::False)
    } else if i == 5 {
        Ok(ElementAdjective::Abyssal)
    } else if i == 6 {
        Ok(ElementAdjective::Dubious)
    } else if i == 7 {
        Ok(ElementAdjective::Elegant)
    } else if i == 8 {
        Ok(ElementAdjective::Moonlit)
    } else if i == 9 {
        Ok(ElementAdjective::Spatial)
    } else if i == 10 {
        Ok(ElementAdjective::Unearthly)
    } else if i == 11 {
        Ok(ElementAdjective::Phantasmagorical)
    } else if i == 12 {
        Ok(ElementAdjective::Confounding)
    } else if i == 13 {
        Ok(ElementAdjective::Burning)
    } else if i == 14 {
        Ok(ElementAdjective::Conflagrant)
    } else if i == 15 {
        Ok(ElementAdjective::Scorching)
    } else if i == 16 {
        Ok(ElementAdjective::Blazing)
    } else if i == 17 {
        Ok(ElementAdjective::Purifying)
    } else if i == 18 {
        Ok(ElementAdjective::Freezing)
    } else if i == 19 {
        Ok(ElementAdjective::Blizzardous)
    } else if i == 20 {
        Ok(ElementAdjective::Rainy)
    } else if i == 21 {
        Ok(ElementAdjective::Drowning)
    } else if i == 22 {
        Ok(ElementAdjective::Voltaic)
    } else if i == 23 {
        Ok(ElementAdjective::Wuthering)
    } else if i == 24 {
        Ok(ElementAdjective::Tempestuous)
    } else if i == 25 {
        Ok(ElementAdjective::Howling)
    } else if i == 26 {
        Ok(ElementAdjective::Worldly)
    } else if i == 27 {
        Ok(ElementAdjective::Twilight)
    } else if i == 28 {
        Ok(ElementAdjective::Geotic)
    } else if i == 29 {
        Ok(ElementAdjective::Abundant)
    } else if i == 30 {
        Ok(ElementAdjective::Crystalline)
    } else {
        Err(SimError::InvalidArgument)
    }
}

/// Display form of each `ElementAdjective` member.
pub open spec fn spec_element_label(v: ElementAdjective) -> Seq<char> {
    match v {
        ElementAdjective::Unremarkable => "Unremarkable"@,
        ElementAdjective::Lunar => "Lunar"@,
        ElementAdjective::Lingering => "Lingering"@,
        ElementAdjective::Mysterious => "Mysterious"@,
        ElementAdjective::False => "False"@,
        ElementAdjective::Abyssal => "Abyssal"@,
        ElementAdjective::Dubious => "Dubious"@,
        ElementAdjective::Elegant => "Elegant"@,
        ElementAdjective::Moonlit => "Moonlit"@,
        ElementAdjective::Spatial => "Spatial"@,
        ElementAdjective::Unearthly => "Unearthly"@,
        ElementAdjective::Phantasmagorical => "Phantasmagorical"@,
        ElementAdjective::Confounding => "Confounding"@,
        ElementAdjective::Burning => "Burning"@,
        ElementAdjective::Conflagrant => "Conflagrant"@,
        ElementAdjective::Scorching => "Scorching"@,
        ElementAdjective::Blazing => "Blazing"@,
        ElementAdjective::Purifying => "Purifying"@,
        ElementAdjective::Freezing => "Freezing"@,
        ElementAdjective::Blizzardous => "Blizzardous"@,
        ElementAdjective::Rainy => "Rainy"@,
        ElementAdjective::Drowning => "Drowning"@,
        ElementAdjective::Voltaic => "Voltaic"@,
        ElementAdjective::Wuthering => "Wuthering"@,
        ElementAdjective::Tempestuous => "Tempestuous"@,
        ElementAdjective::Howling => "Howling"@,
        ElementAdjective::Worldly => "Worldly"@,
        ElementAdjective::Twilight => "Twilight"@,
        ElementAdjective::Geotic => "Geotic"@,
        ElementAdjective::Abundant => "Abundant"@,
        ElementAdjective::Crystalline => "Crystalline"@,
    }
}

pub fn element_label(v: ElementAdjective) -> (r: &'static str)
    ensures
        r@ == spec_element_label(v),
{
    match v {
        ElementAdjective::Unremarkable => "Unremarkable",
        ElementAdjective::Lunar => "Lunar",
        ElementAdjective::Lingering => "Lingering",
        ElementAdjective::Mysterious => "Mysterious",
        ElementAdjective::False => "False",
        ElementAdjective::Abyssal => "Abyssal",
        ElementAdjective::Dubious => "Dubious",
        ElementAdjective::Elegant => "Elegant",
        ElementAdjective::Moonlit => "Moonlit",
        ElementAdjective::Spatial => "Spatial",
        ElementAdjective::Unearthly => "Unearthly",
        ElementAdjective::Phantasmagorical => "Phantasmagorical",
        ElementAdjective::Confounding => "Confounding",
        ElementAdjective::Burning => "Burning",
        ElementAdjective::Conflagrant => "Conflagrant",
        ElementAdjective::Scorching => "Scorching",
        ElementAdjective::Blazing => "Blazing",
        ElementAdjective::Purifying => "Purifying",
        ElementAdjective::Freezing => "Freezing",
        ElementAdjective::Blizzardous => "Blizzardous",
        ElementAdjective::Rainy => "Rainy",
        ElementAdjective::Drowning => "Drowning",
        ElementAdjective::Voltaic => "Voltaic",
        ElementAdjective::Wuthering => "Wuthering",
        ElementAdjective::Tempestuous => "Tempestuous",
        ElementAdjective::Howling => "Howling",
        ElementAdjective::Worldly => "Worldly",
        ElementAdjective::Twilight => "Twilight",
        ElementAdjective::Geotic => "Geotic",
        ElementAdjective::Abundant => "Abundant",
        ElementAdjective::Crystalline => "Crystalline",
    }
}

/// What a dungeon is dedicated to.
#[derive(Clone, Copy, Debug, PartialEq, Eq, Structural)]
pub enum Noun {
    Heaven,
    Hell,
    Willows,
    Light,
    Dreams,
    Truth,
    Lies,
    Hope,
    Blood,
    Doom,
    Storms,
    Serenity,
    Tranquility,
    Enlightenment,
    Rains,
    Rainbows,
    Pandemonium,
    Fantasies,
    Magic,
    Secrets,
    Flames,
    Pride,
    Obscurity,
    Resolve,
}

/// The `Noun` member at ordinal position `i` of the declared order.
pub open spec fn spec_noun_of_index(i: int) -> Noun {
    if i == 0 {
        Noun::Heaven
    } else if i == 1 {
        Noun::Hell
    } else if i == 2 {
        Noun::Willows
    } else if i == 3 {
        Noun::Light
    } else if i == 4 {
        Noun::Dreams
    } else if i == 5 {
        Noun::Truth
    } else if i == 6 {
        Noun::Lies
    } else if i == 7 {
        Noun::Hope
    } else if i == 8 {
        Noun::Blood
    } else if i == 9 {
        Noun::Doom
    } else if i == 10 {
        Noun::Storms
    } else if i == 11 {
        Noun::Serenity
    } else if i == 12 {
        Noun::Tranquility
    } else if i == 13 {
        Noun::Enlightenment
    } else if i == 14 {
        Noun::Rains
    } else if i == 15 {
        Noun::Rainbows
    } else if i == 16 {
        Noun::Pandemonium
    } else if i == 17 {
        Noun::Fantasies
    } else if i == 18 {
        Noun::Magic
    } else if i == 19 {
        Noun::Secrets
    } else if i == 20 {
        Noun::Flames
    } else if i == 21 {
        Noun::Pride
    } else if i == 22 {
        Noun::Obscurity
    } else {
        Noun::Resolve
    }
}

/// Ordinal lookup into `Noun`; an index at or above the
/// cardinality is a guarded maintenance error.
pub fn noun_from_index(i: u64) -> (r: Result<Noun, SimError>)
    ensures
        i < NUM_NOUNS ==> r == Result::<Noun, SimError>::Ok(spec_noun_of_index(i as int)),
        i >= NUM_NOUNS ==> r == Result::<Noun, SimError>::Err(SimError::InvalidArgument),
{
    if i == 0 {
        Ok(Noun::Heaven)
    } else if i == 1 {
        Ok(Noun::Hell)
    } else if i == 2 {
        Ok(Noun::Willows)
    } else if i == 3 {
        Ok(Noun::Light)
    } else if i == 4 {
        Ok(Noun::Dreams)
    } else if i == 5 {
        Ok(Noun::Truth)
    } else if i == 6 {
        Ok(Noun::Lies)
    } else if i == 7 {
        Ok(Noun::Hope)
    } else if i == 8 {
        Ok(Noun::Blood)
    } else if i == 9 {
        Ok(Noun::Doom)
    } else if i == 10 {
        Ok(Noun::Storms)
    } else if i == 11 {
        Ok(Noun::Serenity)
    } else if i == 12 {
        Ok(Noun::Tranquility)
    } else if i == 13 {
        Ok(Noun::Enlightenment)
    } else if i == 14 {
        Ok(Noun::Rains)
    } else if i == 15 {
        Ok(Noun::Rainbows)
    } else if i == 16 {
        Ok(Noun::Pandemonium)
    } else if i == 17 {
        Ok(Noun::Fantasies)
    } else if i == 18 {
        Ok(Noun::Magic)
    } else if i == 19 {
        Ok(Noun::Secrets)
    } else if i == 20 {
        Ok(Noun::Flames)
    } else if i == 21 {
        Ok(Noun::Pride)
    } else if i == 22 {
        Ok(Noun::Obscurity)
    } else if i == 23 {
        Ok(Noun::Resolve)
    } else {
        Err(SimError::InvalidArgument)
    }
}

/// Display form of each `Noun` member.
pub open spec fn spec_noun_label(v: Noun) -> Seq<char> {
    match v {
        Noun::Heaven => "Heaven"@,
        Noun::Hell => "Hell"@,
        Noun::Willows => "Willows"@,
        Noun::Light => "Light"@,
        Noun::Dreams => "Dreams"@,
        Noun::Truth => "Truth"@,
        Noun::Lies => "Lies"@,
        Noun::Hope => "Hope"@,
        Noun::Blood => "Blood"@,
        Noun::Doom => "Doom"@,
        Noun::Storms => "Storms"@,
        Noun::Serenity => "Serenity"@,
        Noun::Tranquility => "Tranquility"@,
        Noun::Enlightenment => "Enlightenment"@,
        Noun::Rains => "Rains"@,
        Noun::Rainbows => "Rainbows"@,
        Noun::Pandemonium => "Pandemonium"@,
        Noun::Fantasies => "Fantasies"@,
        Noun::Magic => "Magic"@,
        Noun::Secrets => "Secrets"@,
        Noun::Flames => "Flames"@,
        Noun::Pride => "Pride"@,
        Noun::Obscurity => "Obscurity"@,
        Noun::Resolve => "Resolve"@,
    }
}

pub fn noun_label(v: Noun) -> (r: &'static str)
    ensures
        r@ == spec_noun_label(v),
{
    match v {
        Noun::Heaven => "Heaven",
        Noun::Hell => "Hell",
        Noun::Willows => "Willows",
        Noun::Light => "Light",
        Noun::Dreams => "Dreams",
        Noun::Truth => "Truth",
        Noun::Lies => "Lies",
        Noun::Hope => "Hope",
        Noun::Blood => "Blood",
        Noun::Doom => "Doom",
        Noun::Storms => "Storms",
        Noun::Serenity => "Serenity",
        Noun::Tranquility => "Tranquility",
        Noun::Enlightenment => "Enlightenment",
        Noun::Rains => "Rains",
        Noun::Rainbows => "Rainbows",
        Noun::Pandemonium => "Pandemonium",
        Noun::Fantasies => "Fantasies",
        Noun::Magic => "Magic",
        Noun::Secrets => "Secrets",
        Noun::Flames => "Flames",
        Noun::Pride => "Pride",
        Noun::Obscurity => "Obscurity",
        Noun::Resolve => "Resolve",
    }
}

/// A generated stage: a name triple drawn from a hash, and a level.
#[derive(Clone, Copy, Debug, PartialEq, Eq, Structural)]
pub struct Dungeon {
    pub location: LocationType,
    pub element: ElementAdjective,
    pub noun: Noun,
    pub level: u32,
}

/// The dungeon a hash determines: three disjoint 8-bit fields of the hash,
/// each reduced modulo the cardinality of its enumeration and mapped to the
/// member at that ordinal.
pub open spec fn spec_dungeon_of(hash: u64, level: u32) -> Dungeon {
    Dungeon {
        location: spec_location_of_index(((hash & 0xFF) % NUM_LOCATIONS) as int),
        element: spec_element_of_index((((hash & 0xFF00) >> 8) % NUM_ELEMENTS) as int),
        noun: spec_noun_of_index((((hash & 0xFF0000) >> 16) % NUM_NOUNS) as int),
        level: level,
    }
}

/// Name totality: for every 64-bit hash, each of the three reduced fields
/// falls below its enumeration's cardinality, so the ordinal lookup always
/// yields a member.
pub proof fn lemma_name_totality(hash: u64)
    ensures
        (hash & 0xFF) % NUM_LOCATIONS < NUM_LOCATIONS,
        ((hash & 0xFF00) >> 8) % NUM_ELEMENTS < NUM_ELEMENTS,
        ((hash & 0xFF0000) >> 16) % NUM_NOUNS < NUM_NOUNS,
{
}

impl Dungeon {
    /// A dungeon the progression engine can run: its level is one-based and
    /// leaves room for the enemy scaling level above it.
    pub open spec fn wf(self) -> bool {
        1 <= self.level < crate::creature::LEVEL_LIMIT
    }

    /// Builds the dungeon a hash determines. Total: every hash yields a
    /// valid member of each enumeration.
    pub fn from_hash(hash: u64, level: u32) -> (d: Dungeon)
        ensures
            d == spec_dungeon_of(hash, level),
    {
        let location_part: u64 = (hash & 0xFF) % NUM_LOCATIONS;
        let element_part: u64 = ((hash & 0xFF00) >> 8) % NUM_ELEMENTS;
        let noun_part: u64 = ((hash & 0xFF0000) >> 16) % NUM_NOUNS;
        let location: LocationType = match location_from_index(location_part) {
            Ok(l) => l,
            Err(_) => unreached(),
        };
        let element: ElementAdjective = match element_from_index(element_part) {
            Ok(e) => e,
            Err(_) => unreached(),
        };
        let noun: Noun = match noun_from_index(noun_part) {
            Ok(n) => n,
            Err(_) => unreached(),
        };
        Dungeon { location, element, noun, level }
    }
}

/// The display form of a dungeon:
/// `"<Location> of <Element> <Noun> (lv. <level>)"`.
pub open spec fn spec_dungeon_name(d: Dungeon) -> Seq<char> {
    spec_location_label(d.location) + " of "@ + spec_element_label(d.element) + " "@
        + spec_noun_label(d.noun) + " (lv. "@ + spec_decimal(d.level as int) + ")"@
}

impl Dungeon {
    /// Formats the dungeon's display name.
    pub fn get_name(&self) -> (r: String)
        ensures
            r@ == spec_dungeon_name(*self),
    {
        let mut name: String = String::new();
        name.append(location_label(self.location));
        name.append(" of ");
        name.append(element_label(self.element));
        name.append(" ");
        name.append(noun_label(self.noun));
        name.append(" (lv. ");
        let level_text: String = to_decimal(self.level as u64);
        name.append(level_text.as_str());
        name.append(")");
        proof {
            assert(name@ =~= spec_dungeon_name(*self));
        }
        name
    }
}

} // verus!


