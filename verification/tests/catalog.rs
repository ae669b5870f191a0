use parish::catalog::{
    game_state_changed, Channel, GameState, Propagation, SeasonFilter, SoundCatalog, TimeFilter,
    WeatherFilter,
};
use parish::world::{LocationId, LocationKind, Season, TimeOfDay, Weather};

#[test]
fn test_propagation_max_distance() {
    assert_eq!(Propagation::Local.max_distance(), 0);
    assert_eq!(Propagation::Near.max_distance(), 5);
    assert_eq!(Propagation::Medium.max_distance(), 15);
    assert_eq!(Propagation::Far(60).max_distance(), 60);
}

#[test]
fn test_propagation_reaches() {
    assert!(Propagation::Local.reaches(0));
    assert!(!Propagation::Local.reaches(1));

    assert!(Propagation::Near.reaches(0));
    assert!(Propagation::Near.reaches(5));
    assert!(Propagation::Near.reaches(10));
    assert!(!Propagation::Near.reaches(11));

    assert!(Propagation::Medium.reaches(15));
    assert!(!Propagation::Medium.reaches(16));

    assert!(Propagation::Far(60).reaches(60));
    assert!(!Propagation::Far(60).reaches(61));
}

#[test]
fn test_time_filter_any() {
    let filter = TimeFilter::Any;
    assert!(filter.matches(TimeOfDay::Dawn));
    assert!(filter.matches(TimeOfDay::Midnight));
}

#[test]
fn test_time_filter_only() {
    let filter = TimeFilter::Only(vec![TimeOfDay::Dawn, TimeOfDay::Dusk]);
    assert!(filter.matches(TimeOfDay::Dawn));
    assert!(filter.matches(TimeOfDay::Dusk));
    assert!(!filter.matches(TimeOfDay::Midday));
}

#[test]
fn test_time_filter_except() {
    let filter = TimeFilter::Except(vec![TimeOfDay::Midnight]);
    assert!(filter.matches(TimeOfDay::Dawn));
    assert!(!filter.matches(TimeOfDay::Midnight));
}

#[test]
fn test_season_filter_any() {
    let filter = SeasonFilter::Any;
    assert!(filter.matches(Season::Spring));
    assert!(filter.matches(Season::Winter));
}

#[test]
fn test_season_filter_only() {
    let filter = SeasonFilter::Only(vec![Season::Summer]);
    assert!(filter.matches(Season::Summer));
    assert!(!filter.matches(Season::Winter));
}

#[test]
fn test_weather_filter_any() {
    let filter = WeatherFilter::Any;
    assert!(filter.matches(Weather::Clear));
    assert!(filter.matches(Weather::Storm));
}

#[test]
fn test_weather_filter_only() {
    let filter = WeatherFilter::Only(vec![Weather::Rain, Weather::Storm]);
    assert!(filter.matches(Weather::Rain));
    assert!(filter.matches(Weather::Storm));
    assert!(!filter.matches(Weather::Clear));
}

#[test]
fn test_weather_filter_except() {
    let filter = WeatherFilter::Except(vec![Weather::Storm]);
    assert!(filter.matches(Weather::Clear));
    assert!(!filter.matches(Weather::Storm));
}

#[test]
fn test_catalog_not_empty() {
    let catalog = SoundCatalog::new();
    assert!(!catalog.is_empty());
    assert!(catalog.len() > 30);
}

#[test]
fn test_catalog_pub_entries() {
    let catalog = SoundCatalog::new();
    let pub_entries = catalog.entries_for_kind(LocationKind::Pub);
    assert!(pub_entries.len() >= 5);
    assert!(pub_entries.iter().any(|e| e.path.contains("fiddle")));
}

#[test]
fn test_catalog_church_bells() {
    let catalog = SoundCatalog::new();
    let church = catalog.entries_for_kind(LocationKind::Church);
    let bells: Vec<_> = church.iter().filter(|e| e.path.contains("bell")).collect();
    assert!(bells.len() >= 2);
    for bell in &bells {
        assert!(matches!(bell.propagation, Propagation::Far(60)));
    }
}

#[test]
fn test_catalog_weather_entries() {
    let catalog = SoundCatalog::new();
    let weather = catalog.weather_entries();
    assert!(weather.len() >= 5);
    assert!(weather.iter().all(|e| e.is_weather_overlay));
}

#[test]
fn test_catalog_matching_entries() {
    let catalog = SoundCatalog::new();
    let matches = catalog.matching_entries(
        LocationKind::Pub,
        TimeOfDay::Night,
        Season::Winter,
        Weather::Clear,
    );
    assert!(!matches.is_empty());
    assert!(matches.iter().any(|e| e.path.contains("fiddle")));
    assert!(matches.iter().any(|e| e.path.contains("hearth")));
}

#[test]
fn test_catalog_matching_weather() {
    let catalog = SoundCatalog::new();
    let storm = catalog.matching_weather_entries(Weather::Storm);
    assert!(storm.iter().any(|e| e.path.contains("heavy_rain")));
    assert!(storm.iter().any(|e| e.path.contains("thunder")));

    let clear = catalog.matching_weather_entries(Weather::Clear);
    assert!(clear.is_empty());
}

#[test]
fn test_catalog_no_duplicate_paths() {
    let catalog = SoundCatalog::new();
    let mut paths: Vec<&str> = catalog.entries().iter().map(|e| e.path).collect();
    paths.sort();
    let len_before = paths.len();
    paths.dedup();
    assert_eq!(paths.len(), len_before, "catalog has duplicate paths");
}

#[test]
fn test_all_entries_have_valid_volume() {
    let catalog = SoundCatalog::new();
    for entry in catalog.entries() {
        assert!(
            entry.base_volume_pct <= 100,
            "entry {} has invalid volume {}",
            entry.path,
            entry.base_volume_pct
        );
    }
}

#[test]
fn test_fairy_fort_has_samhain() {
    let catalog = SoundCatalog::new();
    let matches = catalog.matching_entries(
        LocationKind::FairyFort,
        TimeOfDay::Night,
        Season::Autumn,
        Weather::Clear,
    );
    assert!(matches.iter().any(|e| e.path.contains("samhain")));
}

#[test]
fn test_crossroads_dance_summer_only() {
    let catalog = SoundCatalog::new();
    let summer = catalog.matching_entries(
        LocationKind::Crossroads,
        TimeOfDay::Dusk,
        Season::Summer,
        Weather::Clear,
    );
    assert!(summer.iter().any(|e| e.path.contains("dance")));

    let winter = catalog.matching_entries(
        LocationKind::Crossroads,
        TimeOfDay::Dusk,
        Season::Winter,
        Weather::Clear,
    );
    assert!(!winter.iter().any(|e| e.path.contains("dance")));
}

#[test]
fn catalog_entry_count_is_exact() {
    assert_eq!(SoundCatalog::new().len(), 35);
}

#[test]
fn weather_entries_are_exactly_the_overlays() {
    let catalog = SoundCatalog::new();
    let overlays = catalog.entries().iter().filter(|e| e.is_weather_overlay).count();
    assert_eq!(catalog.weather_entries().len(), overlays);
}

#[test]
fn test_game_state_equality() {
    let state1 = GameState {
        player_location: LocationId(1),
        location_kind: LocationKind::Crossroads,
        time_of_day: TimeOfDay::Dawn,
        season: Season::Spring,
        weather: Weather::Clear,
        indoor: false,
    };
    let state2 = state1.clone();
    assert_eq!(state1, state2);
}

#[test]
fn test_game_state_inequality() {
    let state1 = GameState {
        player_location: LocationId(1),
        location_kind: LocationKind::Crossroads,
        time_of_day: TimeOfDay::Dawn,
        season: Season::Spring,
        weather: Weather::Clear,
        indoor: false,
    };
    let state2 = GameState { player_location: LocationId(2), ..state1.clone() };
    assert_ne!(state1, state2);
}

#[test]
fn test_channel_variants() {
    let channels = [
        Channel::Ambient,
        Channel::Music,
        Channel::Nature,
        Channel::WeatherOverlay,
        Channel::Events,
    ];
    assert_eq!(channels.len(), 5);
    assert_ne!(Channel::Ambient, Channel::Music);
}

fn make_state(location: u32, kind: LocationKind, time: TimeOfDay) -> GameState {
    GameState {
        player_location: LocationId(location),
        location_kind: kind,
        time_of_day: time,
        season: Season::Summer,
        weather: Weather::Clear,
        indoor: false,
    }
}

#[test]
fn test_state_change_detection_initial() {
    let state = make_state(1, LocationKind::Crossroads, TimeOfDay::Morning);
    assert!(game_state_changed(&None, &state));
}

#[test]
fn test_state_change_detection_same() {
    let state = make_state(1, LocationKind::Crossroads, TimeOfDay::Morning);
    assert!(!game_state_changed(&Some(state), &state));
}

#[test]
fn test_state_change_detection_location_change() {
    let state1 = make_state(1, LocationKind::Crossroads, TimeOfDay::Morning);
    let state2 = make_state(2, LocationKind::Pub, TimeOfDay::Morning);
    assert!(game_state_changed(&Some(state1), &state2));
}

#[test]
fn test_state_change_detection_time_change() {
    let state1 = make_state(1, LocationKind::Crossroads, TimeOfDay::Morning);
    let state2 = make_state(1, LocationKind::Crossroads, TimeOfDay::Afternoon);
    assert!(game_state_changed(&Some(state1), &state2));
}

#[test]
fn test_state_change_detection_weather_change() {
    let state1 = make_state(1, LocationKind::Crossroads, TimeOfDay::Morning);
    let mut state2 = make_state(1, LocationKind::Crossroads, TimeOfDay::Morning);
    state2.weather = Weather::Rain;
    assert!(game_state_changed(&Some(state1), &state2));
}

#[test]
fn location_kind_alone_is_no_change() {
    let state1 = make_state(1, LocationKind::Crossroads, TimeOfDay::Morning);
    let state2 = make_state(1, LocationKind::Pub, TimeOfDay::Morning);
    assert!(!game_state_changed(&Some(state1), &state2));
}
