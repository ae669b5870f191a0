use parish::inference::InferenceResponse;
use parish::tier::{tier2_npc_line, tier2_prompt, tier2_summary, tier2_system_prompt};
use parish::world::TimeOfDay;
use parish::npc::NpcId;
use parish::schedule::NpcState;
use parish::tier::{
    assign_tiers, npcs_in_tier, split_into_batches, tier_counts, tier_for, tier_label, CogTier,
    TIER3_BATCH_SIZE, TIER3_TICK_GAME_MINUTES,
};
use parish::world::LocationId;

fn present(l: u32) -> NpcState {
    NpcState::Present(LocationId(l))
}

#[test]
fn test_tier_assignment_same_location() {
    assert_eq!(tier_for(present(1), LocationId(1), Some(1)), CogTier::Tier1);
}

#[test]
fn test_tier_assignment_one_edge() {
    // Shortest path 1 -> 2: two locations, one edge.
    assert_eq!(tier_for(present(2), LocationId(1), Some(2)), CogTier::Tier2);
}

#[test]
fn test_tier_assignment_two_edges() {
    assert_eq!(tier_for(present(4), LocationId(1), Some(3)), CogTier::Tier2);
}

#[test]
fn test_tier_assignment_three_edges() {
    assert_eq!(tier_for(present(5), LocationId(1), Some(4)), CogTier::Tier3);
    assert_eq!(tier_for(present(9), LocationId(1), Some(12)), CogTier::Tier3);
}

#[test]
fn test_tier_assignment_in_transit() {
    let state = NpcState::InTransit { from: LocationId(1), to: LocationId(2), arrives_at: 0 };
    assert_eq!(tier_for(state, LocationId(1), Some(1)), CogTier::Tier4);
}

#[test]
fn unreachable_npc_is_tier4() {
    assert_eq!(tier_for(present(7), LocationId(1), None), CogTier::Tier4);
    // At the player's own location the path does not matter.
    assert_eq!(tier_for(present(1), LocationId(1), None), CogTier::Tier1);
}

#[test]
fn test_npcs_in_tier() {
    let assignments = vec![
        (NpcId(1), CogTier::Tier1),
        (NpcId(2), CogTier::Tier1),
        (NpcId(3), CogTier::Tier2),
    ];
    let tier1 = npcs_in_tier(&assignments, CogTier::Tier1);
    assert_eq!(tier1, vec![NpcId(1), NpcId(2)]);
    let tier2 = npcs_in_tier(&assignments, CogTier::Tier2);
    assert_eq!(tier2, vec![NpcId(3)]);
    assert!(npcs_in_tier(&assignments, CogTier::Tier4).is_empty());
}

#[test]
fn tier_counts_split_three_ways() {
    let tiers = [CogTier::Tier1, CogTier::Tier3, CogTier::Tier2, CogTier::Tier4, CogTier::Tier1];
    assert_eq!(tier_counts(&tiers), (2, 1, 2));
    assert_eq!(tier_counts(&[]), (0, 0, 0));
}

#[test]
fn test_tier_label() {
    assert_eq!(tier_label(CogTier::Tier1), "T1");
    assert_eq!(tier_label(CogTier::Tier2), "T2");
    assert_eq!(tier_label(CogTier::Tier3), "T3");
    assert_eq!(tier_label(CogTier::Tier4), "T4");
}

#[test]
fn test_split_into_batches_exact() {
    let ids: Vec<NpcId> = (0..8).map(NpcId).collect();
    let batches = split_into_batches(&ids, 8);
    assert_eq!(batches.len(), 1);
    assert_eq!(batches[0].len(), 8);
}

#[test]
fn test_split_into_batches_remainder() {
    let ids: Vec<NpcId> = (0..10).map(NpcId).collect();
    let batches = split_into_batches(&ids, 8);
    assert_eq!(batches.len(), 2);
    assert_eq!(batches[0].len(), 8);
    assert_eq!(batches[1].len(), 2);
}

#[test]
fn test_split_into_batches_empty() {
    let ids: Vec<NpcId> = vec![];
    let batches = split_into_batches(&ids, 8);
    assert!(batches.is_empty());
}

#[test]
fn test_split_into_batches_zero_size() {
    let ids: Vec<NpcId> = (0..5).map(NpcId).collect();
    let batches = split_into_batches(&ids, 0);
    assert!(batches.is_empty());
}

#[test]
fn batches_concatenate_back_in_order() {
    let ids: Vec<NpcId> = (0..17).map(NpcId).collect();
    let batches = split_into_batches(&ids, 5);
    assert_eq!(batches.iter().map(|b| b.len()).collect::<Vec<_>>(), vec![5, 5, 5, 2]);
    let flat: Vec<NpcId> = batches.into_iter().flatten().collect();
    assert_eq!(flat, ids);
}

#[test]
fn test_tier3_constants() {
    assert_eq!(TIER3_BATCH_SIZE, 8);
    assert_eq!(TIER3_TICK_GAME_MINUTES, 1440);
}

#[test]
fn tier2_summary_from_response() {
    let ok = InferenceResponse::from_result(0, Ok("  They share a laugh. \n".to_string()));
    assert_eq!(tier2_summary(&ok, "Darcy's Pub"), "They share a laugh.");
    let blank = InferenceResponse::from_result(0, Ok("   ".to_string()));
    assert_eq!(
        tier2_summary(&blank, "Darcy's Pub"),
        "The people at Darcy's Pub go about their business quietly."
    );
    let failed = InferenceResponse::from_result(0, Err("timeout".to_string()));
    assert_eq!(
        tier2_summary(&failed, "the crossroads"),
        "The people at the crossroads go about their business quietly."
    );
}

#[test]
fn tier2_prompt_text() {
    let lines = vec![
        tier2_npc_line("Padraig", "Publican", "content", "gruff"),
        tier2_npc_line("Siobhan", "Farmer", "tired", "kind"),
    ];
    assert_eq!(lines[0], "- Padraig (Publican), mood: content, personality: gruff");
    let prompt = tier2_prompt(TimeOfDay::Dusk, "Darcy's Pub", &lines);
    assert_eq!(
        prompt,
        "It is Dusk at Darcy's Pub. The following people are here:\n\
         - Padraig (Publican), mood: content, personality: gruff\n\
         - Siobhan (Farmer), mood: tired, personality: kind\n\n\
         In 1-2 sentences, briefly describe a natural interaction between them. \
         Focus on dialogue and small actions. Stay in character.\n\
         Respond with just the narrative text, no JSON."
    );
    assert!(tier2_system_prompt().starts_with("You are a narrator"));
}

#[test]
fn assign_tiers_over_the_roster() {
    let npcs = vec![
        (NpcId(1), present(5)),
        (NpcId(2), present(6)),
        (NpcId(3), present(7)),
        (NpcId(4), present(8)),
        (NpcId(5), NpcState::InTransit { from: LocationId(5), to: LocationId(6), arrives_at: 0 }),
        (NpcId(6), present(9)),
    ];
    let paths = vec![Some(1), Some(2), Some(3), Some(4), None, None];
    let r = assign_tiers(&npcs, LocationId(5), &paths);
    assert_eq!(
        r,
        vec![
            (NpcId(1), CogTier::Tier1),
            (NpcId(2), CogTier::Tier2),
            (NpcId(3), CogTier::Tier2),
            (NpcId(4), CogTier::Tier3),
            (NpcId(5), CogTier::Tier4),
            (NpcId(6), CogTier::Tier4),
        ]
    );
}
