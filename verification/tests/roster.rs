use parish::npc::NpcId;
use parish::relationship::RelationshipKind;
use parish::roster::{reciprocate, RelationLink, RosterEntry};

fn link(target: u32, kind: RelationshipKind, strength: u64) -> RelationLink {
    RelationLink { target: NpcId(target), kind, strength }
}

#[test]
fn missing_reciprocals_are_added_in_file_order() {
    let mut npcs = vec![
        RosterEntry { id: NpcId(1), links: vec![link(2, RelationshipKind::Friend, 0)] },
        RosterEntry { id: NpcId(2), links: vec![] },
        RosterEntry {
            id: NpcId(3),
            links: vec![link(1, RelationshipKind::Rival, 1), link(9, RelationshipKind::Enemy, 2)],
        },
    ];
    reciprocate(&mut npcs);
    assert_eq!(
        npcs[0].links,
        vec![link(2, RelationshipKind::Friend, 0), link(3, RelationshipKind::Rival, 1)]
    );
    assert_eq!(npcs[1].links, vec![link(1, RelationshipKind::Friend, 0)]);
    // A relationship to an NPC that is not in the roster stays one-way.
    assert_eq!(
        npcs[2].links,
        vec![link(1, RelationshipKind::Rival, 1), link(9, RelationshipKind::Enemy, 2)]
    );
}

#[test]
fn existing_reciprocals_are_kept() {
    let mut npcs = vec![
        RosterEntry { id: NpcId(1), links: vec![link(2, RelationshipKind::Family, 0)] },
        RosterEntry { id: NpcId(2), links: vec![link(1, RelationshipKind::Friend, 1)] },
    ];
    reciprocate(&mut npcs);
    assert_eq!(npcs[0].links, vec![link(2, RelationshipKind::Family, 0)]);
    assert_eq!(npcs[1].links, vec![link(1, RelationshipKind::Friend, 1)]);
}

#[test]
fn every_relationship_is_two_way_afterwards() {
    let mut npcs = vec![
        RosterEntry {
            id: NpcId(10),
            links: vec![link(11, RelationshipKind::Neighbor, 0), link(12, RelationshipKind::Romantic, 1)],
        },
        RosterEntry { id: NpcId(11), links: vec![link(12, RelationshipKind::Professional, 2)] },
        RosterEntry { id: NpcId(12), links: vec![] },
    ];
    reciprocate(&mut npcs);
    for a in &npcs {
        for l in &a.links {
            let b = npcs.iter().find(|n| n.id == l.target).expect("target in roster");
            assert!(b.links.iter().any(|back| back.target == a.id));
        }
    }
}
