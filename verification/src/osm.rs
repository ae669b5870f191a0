//! Geographic feature classification: game location types derived from
//! map data, and relation members of map relations.

use vstd::prelude::*;

verus! {

/// A member of a map relation.
#[derive(Debug, Clone)]
pub struct RelationMember {
    /// Member element type.
    pub member_type: String,
    /// Referenced element id.
    pub member_ref: i64,
    /// Role within the relation.
    pub role: String,
}

/// Classification of a map feature into a game-relevant location type.
#[derive(Debug, Clone, Copy, PartialEq, Eq, Hash, Structural)]
pub enum LocationType {
    /// Pub, tavern, or inn.
    Pub,
    /// Church, chapel, or abbey.
    Church,
    /// Shop or market.
    Shop,
    /// School or hedge school.
    School,
    /// Post office or letter office.
    PostOffice,
    /// Farmhouse or agricultural holding.
    Farm,
    /// Crossroads or road junction.
    Crossroads,
    /// Bridge.
    Bridge,
    /// Well, spring, or holy well.
    Well,
    /// Lake shore or river bank.
    Waterside,
    /// Bog or marsh.
    Bog,
    /// Woodland or copse.
    Woodland,
    /// Ring fort, rath, or cashel.
    RingFort,
    /// Standing stone or megalithic monument.
    StandingStone,
    /// Graveyard or cemetery.
    Graveyard,
    /// Mill (corn, flour, linen).
    Mill,
    /// Forge or smithy.
    Forge,
    /// Lime kiln.
    LimeKiln,
    /// Town square or village green.
    Square,
    /// Harbour, quay, or pier.
    Harbour,
    /// Road segment (used for connections, not as a primary location).
    Road,
    /// Generic named place or townland.
    NamedPlace,
    /// Hilltop, ridge, or elevated point.
    Hill,
    /// Ruin or abandoned structure.
    Ruin,
    /// Other: an unclassified feature that still warrants a location node.
    Other,
}

/// The location types that are indoors.
pub open spec fn spec_is_indoor(t: LocationType) -> bool {
    ||| t == LocationType::Pub
    ||| t == LocationType::Church
    ||| t == LocationType::Shop
    ||| t == LocationType::School
    ||| t == LocationType::PostOffice
    ||| t == LocationType::Mill
    ||| t == LocationType::Forge
}

impl LocationType {
    /// Whether this location type is typically indoors.
    pub fn is_indoor(self) -> (r: bool)
        ensures
            r == spec_is_indoor(self),
    {
        match self {
            LocationType::Pub | LocationType::Church | LocationType::Shop | LocationType::School
            | LocationType::PostOffice | LocationType::Mill | LocationType::Forge => true,
            _ => false,
        }
    }

    /// Whether this location type is typically publicly accessible (all
    /// but farms).
    pub fn is_public(self) -> (r: bool)
        ensures
            r == (self != LocationType::Farm),
    {
        match self {
            LocationType::Farm => false,
            _ => true,
        }
    }
}

} // verus!
