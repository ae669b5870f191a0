//! Kinds of relationship between NPCs.

use vstd::prelude::*;

use crate::text::owned;

verus! {

/// The kind of relationship between two NPCs.
#[derive(Debug, Clone, Copy, PartialEq, Eq, Structural)]
pub enum RelationshipKind {
    /// Blood or marital family.
    Family,
    /// Close friend.
    Friend,
    /// Geographic neighbor.
    Neighbor,
    /// Competitive rival.
    Rival,
    /// Hostile enemy.
    Enemy,
    /// Romantic partner.
    Romantic,
    /// Work-related connection.
    Professional,
}

/// The display name of a relationship kind.
pub open spec fn kind_name(k: RelationshipKind) -> Seq<char> {
    match k {
        RelationshipKind::Family => "Family"@,
        RelationshipKind::Friend => "Friend"@,
        RelationshipKind::Neighbor => "Neighbor"@,
        RelationshipKind::Rival => "Rival"@,
        RelationshipKind::Enemy => "Enemy"@,
        RelationshipKind::Romantic => "Romantic"@,
        RelationshipKind::Professional => "Professional"@,
    }
}

impl RelationshipKind {
    /// The display name of the kind ("Family", "Friend", ...).
    pub fn to_string(&self) -> (r: String)
        ensures
            r@ == kind_name(*self),
    {
        match self {
            RelationshipKind::Family => owned("Family"),
            RelationshipKind::Friend => owned("Friend"),
            RelationshipKind::Neighbor => owned("Neighbor"),
            RelationshipKind::Rival => owned("Rival"),
            RelationshipKind::Enemy => owned("Enemy"),
            RelationshipKind::Romantic => owned("Romantic"),
            RelationshipKind::Professional => owned("Professional"),
        }
    }
}

} // verus!
