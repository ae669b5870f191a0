use parish::debug::{debug_here, debug_schedule, debug_tiers, find_npc_by_name, HereExit, HereNpc};
use parish::schedule::ScheduleEntry;
use parish::tier::CogTier;
use parish::world::LocationId;

#[test]
fn tiers_report_lists_names_per_tier() {
    let npcs = vec![
        ("Padraig Darcy".to_string(), Some(CogTier::Tier1)),
        ("Siobhan Murphy".to_string(), Some(CogTier::Tier2)),
        ("Niamh Darcy".to_string(), Some(CogTier::Tier1)),
        ("Tommy O'Brien".to_string(), Some(CogTier::Tier4)),
        ("Roisin Connolly".to_string(), None),
    ];
    let lines = debug_tiers("Darcy's Pub", &npcs);
    assert_eq!(
        lines,
        vec![
            "[DEBUG TIERS]",
            "  Player at: Darcy's Pub",
            "  Tier 1 (here): Padraig Darcy, Niamh Darcy",
            "  Tier 2 (nearby): Siobhan Murphy",
            "  Tier 3 (far): (none)",
        ]
    );
}

#[test]
fn npc_found_by_part_of_name_ignoring_case() {
    let names = vec!["Padraig Darcy".to_string(), "Siobhan Murphy".to_string()];
    assert_eq!(find_npc_by_name(&names, "siobhan"), Some(1));
    assert_eq!(find_npc_by_name(&names, "DARCY"), Some(0));
    assert_eq!(find_npc_by_name(&names, "Mary"), None);
    assert_eq!(find_npc_by_name(&names, ""), Some(0));
}

#[test]
fn schedule_report_pads_hours() {
    let entries = vec![
        ScheduleEntry {
            start_hour: 7,
            end_hour: 9,
            location: LocationId(1),
            activity: "breakfast".to_string(),
        },
        ScheduleEntry {
            start_hour: 9,
            end_hour: 22,
            location: LocationId(2),
            activity: "tending bar".to_string(),
        },
    ];
    let locs = vec!["Home".to_string(), "Darcy's Pub".to_string()];
    let lines = debug_schedule("Padraig Darcy", Some(&entries), &locs);
    assert_eq!(
        lines,
        vec![
            "[DEBUG SCHEDULE: Padraig Darcy]",
            "  07:00-09:00  Home  (breakfast)",
            "  09:00-22:00  Darcy's Pub  (tending bar)",
        ]
    );
    let lines = debug_schedule("Tommy", None, &Vec::new());
    assert_eq!(lines, vec!["[DEBUG SCHEDULE: Tommy]", "  (no schedule)"]);
}

#[test]
fn here_report_lists_npcs_and_exits() {
    let npcs = vec![
        HereNpc { name: "Padraig Darcy".to_string(), mood: "cheerful".to_string(), tier: Some(CogTier::Tier1) },
        HereNpc { name: "Niamh Darcy".to_string(), mood: "tired".to_string(), tier: None },
    ];
    let exits = vec![
        HereExit { destination: "The Crossroads".to_string(), minutes: 3 },
        HereExit { destination: "Church".to_string(), minutes: 12 },
    ];
    let lines = debug_here("Darcy's Pub", LocationId(2), true, true, &npcs, Some(&exits));
    assert_eq!(
        lines,
        vec![
            "[DEBUG HERE]",
            "  Darcy's Pub (id: 2)",
            "  Indoor: true | Public: true",
            "  NPCs:",
            "    Padraig Darcy [cheerful] (Tier1)",
            "    Niamh Darcy [tired] ()",
            "  Exits:",
            "    -> The Crossroads (3min)",
            "    -> Church (12min)",
        ]
    );
    let lines = debug_here("Bog Road", LocationId(14), false, true, &Vec::new(), None);
    assert_eq!(
        lines,
        vec!["[DEBUG HERE]", "  Bog Road (id: 14)", "  Indoor: false | Public: true", "  NPCs: (none)"]
    );
}
