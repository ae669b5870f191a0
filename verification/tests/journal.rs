use parish::journal::{replay_journal, ReplayAction, ReplayNpc, ReplayState, WorldEvent};
use parish::npc::NpcId;
use parish::schedule::NpcState;
use parish::world::{LocationId, Weather};

fn world() -> ReplayState {
    ReplayState { player_location: LocationId(1), weather: Weather::Clear, npcs: Vec::new() }
}

fn with_npc() -> ReplayState {
    let mut w = world();
    w.npcs.push(ReplayNpc {
        id: NpcId(1),
        location: LocationId(1),
        state: NpcState::Present(LocationId(1)),
        mood: "calm".to_string(),
    });
    w
}

#[test]
fn test_world_event_type_names() {
    let event = WorldEvent::PlayerMoved { from: LocationId(1), to: LocationId(2) };
    assert_eq!(event.event_type(), "PlayerMoved");
    let event = WorldEvent::NpcMoodChanged { npc_id: NpcId(1), mood: "happy".to_string() };
    assert_eq!(event.event_type(), "NpcMoodChanged");
    let event = WorldEvent::WeatherChanged { new_weather: "Rain".to_string() };
    assert_eq!(event.event_type(), "WeatherChanged");
    let event = WorldEvent::ClockAdvanced { minutes: 30 };
    assert_eq!(event.event_type(), "ClockAdvanced");
}

#[test]
fn test_replay_player_moved() {
    let mut w = world();
    replay_journal(&mut w, vec![WorldEvent::PlayerMoved { from: LocationId(1), to: LocationId(2) }]);
    assert_eq!(w.player_location, LocationId(2));
}

#[test]
fn test_replay_weather_changed() {
    let mut w = world();
    replay_journal(&mut w, vec![WorldEvent::WeatherChanged { new_weather: "Storm".to_string() }]);
    assert_eq!(w.weather, Weather::Storm);
}

#[test]
fn test_replay_clock_advanced() {
    let mut w = world();
    let acts = replay_journal(&mut w, vec![WorldEvent::ClockAdvanced { minutes: 60 }]);
    assert_eq!(acts.len(), 1);
    assert!(matches!(acts[0], ReplayAction::AdvanceClock { minutes: 60 }));
}

#[test]
fn test_replay_npc_mood_changed() {
    let mut w = with_npc();
    replay_journal(
        &mut w,
        vec![WorldEvent::NpcMoodChanged { npc_id: NpcId(1), mood: "angry".to_string() }],
    );
    assert_eq!(w.npcs[0].mood, "angry");
}

#[test]
fn test_replay_unknown_npc_skipped() {
    let mut w = world();
    let acts = replay_journal(
        &mut w,
        vec![WorldEvent::NpcMoodChanged { npc_id: NpcId(99), mood: "angry".to_string() }],
    );
    assert!(acts.is_empty());
    assert!(w.npcs.is_empty());
}

#[test]
fn test_replay_multiple_events() {
    let mut w = world();
    replay_journal(
        &mut w,
        vec![
            WorldEvent::PlayerMoved { from: LocationId(1), to: LocationId(2) },
            WorldEvent::WeatherChanged { new_weather: "Fog".to_string() },
            WorldEvent::ClockAdvanced { minutes: 30 },
        ],
    );
    assert_eq!(w.player_location, LocationId(2));
    assert_eq!(w.weather, Weather::Fog);
}

#[test]
fn test_all_event_types_covered() {
    let events = vec![
        WorldEvent::PlayerMoved { from: LocationId(1), to: LocationId(2) },
        WorldEvent::NpcMoved { npc_id: NpcId(1), from: LocationId(1), to: LocationId(2) },
        WorldEvent::NpcMoodChanged { npc_id: NpcId(1), mood: "happy".to_string() },
        WorldEvent::RelationshipChanged { npc_a: NpcId(1), npc_b: NpcId(2), delta: 0 },
        WorldEvent::DialogueOccurred {
            npc_id: NpcId(1),
            player_said: "hi".to_string(),
            npc_said: "hello".to_string(),
        },
        WorldEvent::WeatherChanged { new_weather: "Clear".to_string() },
        WorldEvent::MemoryAdded { npc_id: NpcId(1), content: "test".to_string() },
        WorldEvent::ClockAdvanced { minutes: 10 },
    ];
    for event in &events {
        assert!(!event.event_type().is_empty());
    }
}

#[test]
fn replay_moves_npcs_and_hands_out_the_rest_in_order() {
    let mut w = with_npc();
    let acts = replay_journal(
        &mut w,
        vec![
            WorldEvent::NpcMoved { npc_id: NpcId(1), from: LocationId(1), to: LocationId(3) },
            WorldEvent::ClockAdvanced { minutes: 5 },
            WorldEvent::MemoryAdded { npc_id: NpcId(1), content: "saw the priest".to_string() },
            WorldEvent::RelationshipChanged { npc_a: NpcId(1), npc_b: NpcId(2), delta: 4 },
            WorldEvent::RelationshipChanged { npc_a: NpcId(7), npc_b: NpcId(2), delta: 5 },
            WorldEvent::DialogueOccurred {
                npc_id: NpcId(1),
                player_said: "hi".to_string(),
                npc_said: "hello".to_string(),
            },
            WorldEvent::WeatherChanged { new_weather: "drizzle".to_string() },
        ],
    );
    assert_eq!(w.npcs[0].location, LocationId(3));
    assert_eq!(w.npcs[0].state, NpcState::Present(LocationId(3)));
    assert_eq!(w.weather, Weather::Clear);
    assert_eq!(acts.len(), 3);
    assert!(matches!(acts[0], ReplayAction::AdvanceClock { minutes: 5 }));
    assert!(matches!(
        acts[1],
        ReplayAction::AddMemory { npc: NpcId(1), ref content, location: LocationId(3) }
            if content == "saw the priest"
    ));
    assert!(matches!(
        acts[2],
        ReplayAction::AdjustRelationship { npc: NpcId(1), target: NpcId(2), delta: 4 }
    ));
}
