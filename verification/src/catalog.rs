//! Sound catalog — what sounds exist and when they play.
//!
//! Maps location kinds, times of day, seasons and weather to audio
//! assets. Volumes are in percent of full volume.

use vstd::prelude::*;

use crate::world::{LocationId, LocationKind, Season, TimeOfDay, Weather};

verus! {

/// Identifies one of the five audio mixing channels.
#[derive(Debug, Clone, Copy, PartialEq, Eq, Structural)]
pub enum Channel {
    /// Base ambient layer (wind, water, silence).
    Ambient,
    /// Music layer (fiddle, hymns).
    Music,
    /// Nature layer (birds, animals).
    Nature,
    /// Weather overlay (rain, wind, thunder).
    WeatherOverlay,
    /// One-shot events (bell toll, rooster crow, door slam).
    Events,
}

/// Snapshot of game state relevant to audio decisions.
#[derive(Debug, Clone, Copy, PartialEq, Eq, Structural)]
pub struct GameState {
    /// The player's current location id.
    pub player_location: LocationId,
    /// The kind of location the player is at.
    pub location_kind: LocationKind,
    /// Current time of day.
    pub time_of_day: TimeOfDay,
    /// Current season.
    pub season: Season,
    /// Current weather.
    pub weather: Weather,
    /// Whether the player is indoors.
    pub indoor: bool,
}

/// Whether the audio-relevant state changed: there was no earlier state,
/// or location, time of day, season, weather or indoor status differ.
pub fn game_state_changed(last: &Option<GameState>, state: &GameState) -> (r: bool)
    ensures
        r == match *last {
            None => true,
            Some(l) => l.player_location != state.player_location || l.time_of_day
                != state.time_of_day || l.season != state.season || l.weather != state.weather
                || l.indoor != state.indoor,
        },
{
    match last {
        None => true,
        Some(l) => l.player_location != state.player_location || l.time_of_day
            != state.time_of_day || l.season != state.season || l.weather != state.weather
            || l.indoor != state.indoor,
    }
}

/// How far a sound carries through the world graph.
#[derive(Debug, Clone, Copy, PartialEq, Eq, Structural)]
pub enum Propagation {
    /// Only audible at the source location.
    Local,
    /// Audible at source and direct neighbours.
    Near,
    /// Audible up to about 15 minutes traversal away.
    Medium,
    /// Audible up to the given minutes of traversal from the source.
    Far(u16),
}

impl Propagation {
    /// The maximum distance in minutes this propagation covers.
    pub fn max_distance(&self) -> (r: u16)
        ensures
            r == match *self {
                Propagation::Local => 0,
                Propagation::Near => 5,
                Propagation::Medium => 15,
                Propagation::Far(m) => m,
            },
    {
        match self {
            Propagation::Local => 0,
            Propagation::Near => 5,
            Propagation::Medium => 15,
            Propagation::Far(max) => *max,
        }
    }

    /// Whether a sound with this propagation is audible at a distance.
    pub fn reaches(&self, distance_minutes: u16) -> (r: bool)
        ensures
            r == match *self {
                Propagation::Local => distance_minutes == 0,
                Propagation::Near => distance_minutes <= 10,
                Propagation::Medium => distance_minutes <= 15,
                Propagation::Far(m) => distance_minutes <= m,
            },
    {
        match self {
            Propagation::Local => distance_minutes == 0,
            Propagation::Near => distance_minutes <= 10,
            Propagation::Medium => distance_minutes <= 15,
            Propagation::Far(max) => distance_minutes <= *max,
        }
    }
}

fn contains_time(v: &Vec<TimeOfDay>, t: TimeOfDay) -> (r: bool)
    ensures
        r == v@.contains(t),
{
    let mut i: usize = 0;
    while i < v.len()
        invariant
            i <= v@.len(),
            forall|j: int| 0 <= j < i ==> v@[j] != t,
        decreases v@.len() - i,
    {
        if v[i] == t {
            return true;
        }
        i = i + 1;
    }
    false
}

fn contains_season(v: &Vec<Season>, t: Season) -> (r: bool)
    ensures
        r == v@.contains(t),
{
    let mut i: usize = 0;
    while i < v.len()
        invariant
            i <= v@.len(),
            forall|j: int| 0 <= j < i ==> v@[j] != t,
        decreases v@.len() - i,
    {
        if v[i] == t {
            return true;
        }
        i = i + 1;
    }
    false
}

fn contains_weather(v: &Vec<Weather>, t: Weather) -> (r: bool)
    ensures
        r == v@.contains(t),
{
    let mut i: usize = 0;
    while i < v.len()
        invariant
            i <= v@.len(),
            forall|j: int| 0 <= j < i ==> v@[j] != t,
        decreases v@.len() - i,
    {
        if v[i] == t {
            return true;
        }
        i = i + 1;
    }
    false
}

/// Time-of-day filter for a sound entry.
#[derive(Debug)]
pub enum TimeFilter {
    /// Plays at any time.
    Any,
    /// Plays only during these times.
    Only(Vec<TimeOfDay>),
    /// Plays at all times except these.
    Except(Vec<TimeOfDay>),
}

impl TimeFilter {
    /// Whether the filter lets a sound play at a time of day.
    pub open spec fn spec_matches(&self, time: TimeOfDay) -> bool {
        match self {
            TimeFilter::Any => true,
            TimeFilter::Only(ts) => ts@.contains(time),
            TimeFilter::Except(ts) => !ts@.contains(time),
        }
    }

    /// Returns true if the filter matches the given time of day.
    pub fn matches(&self, time: TimeOfDay) -> (r: bool)
        ensures
            r == self.spec_matches(time),
    {
        match self {
            TimeFilter::Any => true,
            TimeFilter::Only(times) => contains_time(times, time),
            TimeFilter::Except(times) => !contains_time(times, time),
        }
    }
}

/// Seasonal filter for a sound entry.
#[derive(Debug)]
pub enum SeasonFilter {
    /// Plays in any season.
    Any,
    /// Plays only during these seasons.
    Only(Vec<Season>),
}

impl SeasonFilter {
    /// Whether the filter lets a sound play in a season.
    pub open spec fn spec_matches(&self, season: Season) -> bool {
        match self {
            SeasonFilter::Any => true,
            SeasonFilter::Only(ss) => ss@.contains(season),
        }
    }

    /// Returns true if the filter matches the given season.
    pub fn matches(&self, season: Season) -> (r: bool)
        ensures
            r == self.spec_matches(season),
    {
        match self {
            SeasonFilter::Any => true,
            SeasonFilter::Only(seasons) => contains_season(seasons, season),
        }
    }
}

/// Weather filter for a sound entry.
#[derive(Debug)]
pub enum WeatherFilter {
    /// Plays in any weather.
    Any,
    /// Plays only during these weather conditions.
    Only(Vec<Weather>),
    /// Plays in all weather except these.
    Except(Vec<Weather>),
}

impl WeatherFilter {
    /// Whether the filter lets a sound play in some weather.
    pub open spec fn spec_matches(&self, weather: Weather) -> bool {
        match self {
            WeatherFilter::Any => true,
            WeatherFilter::Only(ws) => ws@.contains(weather),
            WeatherFilter::Except(ws) => !ws@.contains(weather),
        }
    }

    /// Returns true if the filter matches the given weather.
    pub fn matches(&self, weather: Weather) -> (r: bool)
        ensures
            r == self.spec_matches(weather),
    {
        match self {
            WeatherFilter::Any => true,
            WeatherFilter::Only(conditions) => contains_weather(conditions, weather),
            WeatherFilter::Except(conditions) => !contains_weather(conditions, weather),
        }
    }
}

/// Whether a sound loops or plays once.
#[derive(Debug, Clone, Copy, PartialEq, Eq, Structural)]
pub enum LoopMode {
    /// Plays continuously.
    Loop,
    /// Plays once; the engine may select it again later.
    OneShot,
}

/// A single sound asset with its playback conditions.
#[derive(Debug)]
pub struct SoundEntry {
    /// Path to the audio file relative to `assets/audio/`.
    pub path: &'static str,
    /// What location kind produces this sound.
    pub source_kind: LocationKind,
    /// How far the sound carries through the graph.
    pub propagation: Propagation,
    /// When this sound can play (time of day).
    pub time_filter: TimeFilter,
    /// Seasonal constraint.
    pub season_filter: SeasonFilter,
    /// Weather constraint.
    pub weather_filter: WeatherFilter,
    /// Whether this is a looping layer or a one-shot event.
    pub loop_mode: LoopMode,
    /// Relative volume in percent (0-100) before attenuation.
    pub base_volume_pct: u8,
    /// Which audio channel this sound plays on.
    pub channel: Channel,
    /// Whether this is a global weather overlay (not tied to a location).
    pub is_weather_overlay: bool,
}

/// Whether an entry plays at a location of a kind under given conditions.
pub open spec fn entry_matches(
    e: SoundEntry,
    kind: LocationKind,
    time: TimeOfDay,
    season: Season,
    weather: Weather,
) -> bool {
    !e.is_weather_overlay && e.source_kind == kind && e.time_filter.spec_matches(time)
        && e.season_filter.spec_matches(season) && e.weather_filter.spec_matches(weather)
}

/// Whether an entry is a weather overlay playing in given weather.
pub open spec fn overlay_matches(e: SoundEntry, weather: Weather) -> bool {
    e.is_weather_overlay && e.weather_filter.spec_matches(weather)
}

/// The properties every catalog entry has: a volume of at most 100%,
/// weather overlays local and on the weather or event channel, and only
/// church bells carrying far (60 minutes).
pub open spec fn catalog_entry_ok(e: SoundEntry) -> bool {
    &&& e.base_volume_pct <= 100
    &&& e.is_weather_overlay ==> e.propagation == Propagation::Local && (e.channel
        == Channel::WeatherOverlay || e.channel == Channel::Events)
    &&& e.propagation is Far ==> e.source_kind == LocationKind::Church && e.propagation
        == Propagation::Far(60)
}

/// The `i`-th entry of the catalog, field by field.
pub open spec fn catalog_entry_spec(i: int, e: SoundEntry) -> bool {
    if i == 0 {
        &&& e.path@ == "pub/fiddle_reel.ogg"@
        &&& e.source_kind == LocationKind::Pub
        &&& e.propagation == Propagation::Near
        &&& (e.time_filter matches TimeFilter::Only(v) && v@ == seq![TimeOfDay::Night, TimeOfDay::Dusk])
        &&& e.season_filter is Any
        &&& e.weather_filter is Any
        &&& e.loop_mode == LoopMode::Loop
        &&& e.base_volume_pct == 80
        &&& e.channel == Channel::Music
        &&& e.is_weather_overlay == false
    } else if i == 1 {
        &&& e.path@ == "pub/sean_nos.ogg"@
        &&& e.source_kind == LocationKind::Pub
        &&& e.propagation == Propagation::Near
        &&& (e.time_filter matches TimeFilter::Only(v) && v@ == seq![TimeOfDay::Night])
        &&& e.season_filter is Any
        &&& e.weather_filter is Any
        &&& e.loop_mode == LoopMode::OneShot
        &&& e.base_volume_pct == 60
        &&& e.channel == Channel::Music
        &&& e.is_weather_overlay == false
    } else if i == 2 {
        &&& e.path@ == "pub/crowd_murmur.ogg"@
        &&& e.source_kind == LocationKind::Pub
        &&& e.propagation == Propagation::Local
        &&& (e.time_filter matches TimeFilter::Only(v) && v@ == seq![TimeOfDay::Afternoon, TimeOfDay::Dusk, TimeOfDay::Night])
        &&& e.season_filter is Any
        &&& e.weather_filter is Any
        &&& e.loop_mode == LoopMode::Loop
        &&& e.base_volume_pct == 40
        &&& e.channel == Channel::Ambient
        &&& e.is_weather_overlay == false
    } else if i == 3 {
        &&& e.path@ == "pub/glasses_clink.ogg"@
        &&& e.source_kind == LocationKind::Pub
        &&& e.propagation == Propagation::Local
        &&& (e.time_filter matches TimeFilter::Only(v) && v@ == seq![TimeOfDay::Afternoon, TimeOfDay::Dusk, TimeOfDay::Night])
        &&& e.season_filter is Any
        &&& e.weather_filter is Any
        &&& e.loop_mode == LoopMode::OneShot
        &&& e.base_volume_pct == 30
        &&& e.channel == Channel::Events
        &&& e.is_weather_overlay == false
    } else if i == 4 {
        &&& e.path@ == "pub/hearth_crackling.ogg"@
        &&& e.source_kind == LocationKind::Pub
        &&& e.propagation == Propagation::Local
        &&& e.time_filter is Any
        &&& (e.season_filter matches SeasonFilter::Only(v) && v@ == seq![Season::Autumn, Season::Winter])
        &&& e.weather_filter is Any
        &&& e.loop_mode == LoopMode::Loop
        &&& e.base_volume_pct == 25
        &&& e.channel == Channel::Ambient
        &&& e.is_weather_overlay == false
    } else if i == 5 {
        &&& e.path@ == "church/bell_angelus.ogg"@
        &&& e.source_kind == LocationKind::Church
        &&& e.propagation == Propagation::Far(60)
        &&& (e.time_filter matches TimeFilter::Only(v) && v@ == seq![TimeOfDay::Dawn, TimeOfDay::Midday, TimeOfDay::Dusk])
        &&& e.season_filter is Any
        &&& e.weather_filter is Any
        &&& e.loop_mode == LoopMode::OneShot
        &&& e.base_volume_pct == 100
        &&& e.channel == Channel::Events
        &&& e.is_weather_overlay == false
    } else if i == 6 {
        &&& e.path@ == "church/bell_sunday.ogg"@
        &&& e.source_kind == LocationKind::Church
        &&& e.propagation == Propagation::Far(60)
        &&& (e.time_filter matches TimeFilter::Only(v) && v@ == seq![TimeOfDay::Morning])
        &&& e.season_filter is Any
        &&& e.weather_filter is Any
        &&& e.loop_mode == LoopMode::OneShot
        &&& e.base_volume_pct == 100
        &&& e.channel == Channel::Events
        &&& e.is_weather_overlay == false
    } else if i == 7 {
        &&& e.path@ == "church/hymns.ogg"@
        &&& e.source_kind == LocationKind::Church
        &&& e.propagation == Propagation::Medium
        &&& (e.time_filter matches TimeFilter::Only(v) && v@ == seq![TimeOfDay::Morning])
        &&& e.season_filter is Any
        &&& e.weather_filter is Any
        &&& e.loop_mode == LoopMode::Loop
        &&& e.base_volume_pct == 50
        &&& e.channel == Channel::Music
        &&& e.is_weather_overlay == false
    } else if i == 8 {
        &&& e.path@ == "church/stone_echo.ogg"@
        &&& e.source_kind == LocationKind::Church
        &&& e.propagation == Propagation::Local
        &&& e.time_filter is Any
        &&& e.season_filter is Any
        &&& e.weather_filter is Any
        &&& e.loop_mode == LoopMode::Loop
        &&& e.base_volume_pct == 15
        &&& e.channel == Channel::Ambient
        &&& e.is_weather_overlay == false
    } else if i == 9 {
        &&& e.path@ == "farm/rooster.ogg"@
        &&& e.source_kind == LocationKind::Farm
        &&& e.propagation == Propagation::Near
        &&& (e.time_filter matches TimeFilter::Only(v) && v@ == seq![TimeOfDay::Dawn])
        &&& e.season_filter is Any
        &&& e.weather_filter is Any
        &&& e.loop_mode == LoopMode::OneShot
        &&& e.base_volume_pct == 70
        &&& e.channel == Channel::Nature
        &&& e.is_weather_overlay == false
    } else if i == 10 {
        &&& e.path@ == "farm/cattle_lowing.ogg"@
        &&& e.source_kind == LocationKind::Farm
        &&& e.propagation == Propagation::Near
        &&& (e.time_filter matches TimeFilter::Only(v) && v@ == seq![TimeOfDay::Morning, TimeOfDay::Midday, TimeOfDay::Afternoon, TimeOfDay::Dusk])
        &&& e.season_filter is Any
        &&& e.weather_filter is Any
        &&& e.loop_mode == LoopMode::OneShot
        &&& e.base_volume_pct == 50
        &&& e.channel == Channel::Nature
        &&& e.is_weather_overlay == false
    } else if i == 11 {
        &&& e.path@ == "farm/sheep_bleating.ogg"@
        &&& e.source_kind == LocationKind::Farm
        &&& e.propagation == Propagation::Local
        &&& (e.time_filter matches TimeFilter::Only(v) && v@ == seq![TimeOfDay::Morning, TimeOfDay::Midday, TimeOfDay::Afternoon, TimeOfDay::Dusk])
        &&& e.season_filter is Any
        &&& e.weather_filter is Any
        &&& e.loop_mode == LoopMode::OneShot
        &&& e.base_volume_pct == 40
        &&& e.channel == Channel::Nature
        &&& e.is_weather_overlay == false
    } else if i == 12 {
        &&& e.path@ == "farm/dog_barking.ogg"@
        &&& e.source_kind == LocationKind::Farm
        &&& e.propagation == Propagation::Near
        &&& e.time_filter is Any
        &&& e.season_filter is Any
        &&& e.weather_filter is Any
        &&& e.loop_mode == LoopMode::OneShot
        &&& e.base_volume_pct == 50
        &&& e.channel == Channel::Nature
        &&& e.is_weather_overlay == false
    } else if i == 13 {
        &&& e.path@ == "farm/donkey_braying.ogg"@
        &&& e.source_kind == LocationKind::Farm
        &&& e.propagation == Propagation::Medium
        &&& e.time_filter is Any
        &&& e.season_filter is Any
        &&& e.weather_filter is Any
        &&& e.loop_mode == LoopMode::OneShot
        &&& e.base_volume_pct == 60
        &&& e.channel == Channel::Nature
        &&& e.is_weather_overlay == false
    } else if i == 14 {
        &&& e.path@ == "farm/hens_clucking.ogg"@
        &&& e.source_kind == LocationKind::Farm
        &&& e.propagation == Propagation::Local
        &&& (e.time_filter matches TimeFilter::Only(v) && v@ == seq![TimeOfDay::Morning, TimeOfDay::Midday, TimeOfDay::Afternoon])
        &&& e.season_filter is Any
        &&& e.weather_filter is Any
        &&& e.loop_mode == LoopMode::Loop
        &&& e.base_volume_pct == 25
        &&& e.channel == Channel::Nature
        &&& e.is_weather_overlay == false
    } else if i == 15 {
        &&& e.path@ == "water/water_lapping.ogg"@
        &&& e.source_kind == LocationKind::Waterside
        &&& e.propagation == Propagation::Local
        &&& e.time_filter is Any
        &&& e.season_filter is Any
        &&& e.weather_filter is Any
        &&& e.loop_mode == LoopMode::Loop
        &&& e.base_volume_pct == 50
        &&& e.channel == Channel::Ambient
        &&& e.is_weather_overlay == false
    } else if i == 16 {
        &&& e.path@ == "water/wind_in_reeds.ogg"@
        &&& e.source_kind == LocationKind::Waterside
        &&& e.propagation == Propagation::Local
        &&& e.time_filter is Any
        &&& e.season_filter is Any
        &&& e.weather_filter is Any
        &&& e.loop_mode == LoopMode::Loop
        &&& e.base_volume_pct == 35
        &&& e.channel == Channel::Ambient
        &&& e.is_weather_overlay == false
    } else if i == 17 {
        &&& e.path@ == "water/waterfowl.ogg"@
        &&& e.source_kind == LocationKind::Waterside
        &&& e.propagation == Propagation::Local
        &&& (e.time_filter matches TimeFilter::Only(v) && v@ == seq![TimeOfDay::Dawn, TimeOfDay::Dusk])
        &&& (e.season_filter matches SeasonFilter::Only(v) && v@ == seq![Season::Spring, Season::Summer])
        &&& e.weather_filter is Any
        &&& e.loop_mode == LoopMode::OneShot
        &&& e.base_volume_pct == 40
        &&& e.channel == Channel::Nature
        &&& e.is_weather_overlay == false
    } else if i == 18 {
        &&& e.path@ == "bog/wind_over_bog.ogg"@
        &&& e.source_kind == LocationKind::Bog
        &&& e.propagation == Propagation::Local
        &&& e.time_filter is Any
        &&& e.season_filter is Any
        &&& e.weather_filter is Any
        &&& e.loop_mode == LoopMode::Loop
        &&& e.base_volume_pct == 45
        &&& e.channel == Channel::Ambient
        &&& e.is_weather_overlay == false
    } else if i == 19 {
        &&& e.path@ == "bog/curlew_call.ogg"@
        &&& e.source_kind == LocationKind::Bog
        &&& e.propagation == Propagation::Near
        &&& (e.time_filter matches TimeFilter::Only(v) && v@ == seq![TimeOfDay::Dawn, TimeOfDay::Dusk])
        &&& (e.season_filter matches SeasonFilter::Only(v) && v@ == seq![Season::Spring, Season::Summer])
        &&& e.weather_filter is Any
        &&& e.loop_mode == LoopMode::OneShot
        &&& e.base_volume_pct == 50
        &&& e.channel == Channel::Nature
        &&& e.is_weather_overlay == false
    } else if i == 20 {
        &&& e.path@ == "bog/bog_silence.ogg"@
        &&& e.source_kind == LocationKind::Bog
        &&& e.propagation == Propagation::Local
        &&& (e.time_filter matches TimeFilter::Only(v) && v@ == seq![TimeOfDay::Night, TimeOfDay::Midnight])
        &&& e.season_filter is Any
        &&& e.weather_filter is Any
        &&& e.loop_mode == LoopMode::Loop
        &&& e.base_volume_pct == 10
        &&& e.channel == Channel::Ambient
        &&& e.is_weather_overlay == false
    } else if i == 21 {
        &&& e.path@ == "crossroads/dance_music.ogg"@
        &&& e.source_kind == LocationKind::Crossroads
        &&& e.propagation == Propagation::Near
        &&& (e.time_filter matches TimeFilter::Only(v) && v@ == seq![TimeOfDay::Dusk, TimeOfDay::Night])
        &&& (e.season_filter matches SeasonFilter::Only(v) && v@ == seq![Season::Summer])
        &&& e.weather_filter is Any
        &&& e.loop_mode == LoopMode::Loop
        &&& e.base_volume_pct == 70
        &&& e.channel == Channel::Music
        &&& e.is_weather_overlay == false
    } else if i == 22 {
        &&& e.path@ == "crossroads/wind.ogg"@
        &&& e.source_kind == LocationKind::Crossroads
        &&& e.propagation == Propagation::Local
        &&& e.time_filter is Any
        &&& e.season_filter is Any
        &&& e.weather_filter is Any
        &&& e.loop_mode == LoopMode::Loop
        &&& e.base_volume_pct == 30
        &&& e.channel == Channel::Ambient
        &&& e.is_weather_overlay == false
    } else if i == 23 {
        &&& e.path@ == "village/rooster.ogg"@
        &&& e.source_kind == LocationKind::Village
        &&& e.propagation == Propagation::Local
        &&& (e.time_filter matches TimeFilter::Only(v) && v@ == seq![TimeOfDay::Dawn])
        &&& e.season_filter is Any
        &&& e.weather_filter is Any
        &&& e.loop_mode == LoopMode::OneShot
        &&& e.base_volume_pct == 50
        &&& e.channel == Channel::Nature
        &&& e.is_weather_overlay == false
    } else if i == 24 {
        &&& e.path@ == "village/children_playing.ogg"@
        &&& e.source_kind == LocationKind::Village
        &&& e.propagation == Propagation::Local
        &&& (e.time_filter matches TimeFilter::Only(v) && v@ == seq![TimeOfDay::Morning, TimeOfDay::Afternoon])
        &&& (e.season_filter matches SeasonFilter::Only(v) && v@ == seq![Season::Spring, Season::Summer, Season::Autumn])
        &&& e.weather_filter is Any
        &&& e.loop_mode == LoopMode::OneShot
        &&& e.base_volume_pct == 40
        &&& e.channel == Channel::Nature
        &&& e.is_weather_overlay == false
    } else if i == 25 {
        &&& e.path@ == "village/door_footsteps.ogg"@
        &&& e.source_kind == LocationKind::Village
        &&& e.propagation == Propagation::Local
        &&& (e.time_filter matches TimeFilter::Only(v) && v@ == seq![TimeOfDay::Morning, TimeOfDay::Midday, TimeOfDay::Afternoon, TimeOfDay::Dusk])
        &&& e.season_filter is Any
        &&& e.weather_filter is Any
        &&& e.loop_mode == LoopMode::OneShot
        &&& e.base_volume_pct == 30
        &&& e.channel == Channel::Events
        &&& e.is_weather_overlay == false
    } else if i == 26 {
        &&& e.path@ == "village/evening_settling.ogg"@
        &&& e.source_kind == LocationKind::Village
        &&& e.propagation == Propagation::Local
        &&& (e.time_filter matches TimeFilter::Only(v) && v@ == seq![TimeOfDay::Dusk])
        &&& e.season_filter is Any
        &&& e.weather_filter is Any
        &&& e.loop_mode == LoopMode::Loop
        &&& e.base_volume_pct == 25
        &&& e.channel == Channel::Ambient
        &&& e.is_weather_overlay == false
    } else if i == 27 {
        &&& e.path@ == "fairy_fort/hawthorn_wind.ogg"@
        &&& e.source_kind == LocationKind::FairyFort
        &&& e.propagation == Propagation::Local
        &&& e.time_filter is Any
        &&& e.season_filter is Any
        &&& e.weather_filter is Any
        &&& e.loop_mode == LoopMode::Loop
        &&& e.base_volume_pct == 35
        &&& e.channel == Channel::Ambient
        &&& e.is_weather_overlay == false
    } else if i == 28 {
        &&& e.path@ == "fairy_fort/uncanny_silence.ogg"@
        &&& e.source_kind == LocationKind::FairyFort
        &&& e.propagation == Propagation::Local
        &&& (e.time_filter matches TimeFilter::Only(v) && v@ == seq![TimeOfDay::Night, TimeOfDay::Midnight])
        &&& e.season_filter is Any
        &&& e.weather_filter is Any
        &&& e.loop_mode == LoopMode::Loop
        &&& e.base_volume_pct == 10
        &&& e.channel == Channel::Ambient
        &&& e.is_weather_overlay == false
    } else if i == 29 {
        &&& e.path@ == "fairy_fort/samhain_atmosphere.ogg"@
        &&& e.source_kind == LocationKind::FairyFort
        &&& e.propagation == Propagation::Local
        &&& (e.time_filter matches TimeFilter::Only(v) && v@ == seq![TimeOfDay::Night])
        &&& (e.season_filter matches SeasonFilter::Only(v) && v@ == seq![Season::Autumn])
        &&& e.weather_filter is Any
        &&& e.loop_mode == LoopMode::Loop
        &&& e.base_volume_pct == 30
        &&& e.channel == Channel::Ambient
        &&& e.is_weather_overlay == false
    } else if i == 30 {
        &&& e.path@ == "weather/light_rain.ogg"@
        &&& e.source_kind == LocationKind::Road
        &&& e.propagation == Propagation::Local
        &&& e.time_filter is Any
        &&& e.season_filter is Any
        &&& (e.weather_filter matches WeatherFilter::Only(v) && v@ == seq![Weather::Rain])
        &&& e.loop_mode == LoopMode::Loop
        &&& e.base_volume_pct == 50
        &&& e.channel == Channel::WeatherOverlay
        &&& e.is_weather_overlay == true
    } else if i == 31 {
        &&& e.path@ == "weather/heavy_rain.ogg"@
        &&& e.source_kind == LocationKind::Road
        &&& e.propagation == Propagation::Local
        &&& e.time_filter is Any
        &&& e.season_filter is Any
        &&& (e.weather_filter matches WeatherFilter::Only(v) && v@ == seq![Weather::Storm])
        &&& e.loop_mode == LoopMode::Loop
        &&& e.base_volume_pct == 70
        &&& e.channel == Channel::WeatherOverlay
        &&& e.is_weather_overlay == true
    } else if i == 32 {
        &&& e.path@ == "weather/wind.ogg"@
        &&& e.source_kind == LocationKind::Road
        &&& e.propagation == Propagation::Local
        &&& e.time_filter is Any
        &&& e.season_filter is Any
        &&& (e.weather_filter matches WeatherFilter::Only(v) && v@ == seq![Weather::Rain, Weather::Storm])
        &&& e.loop_mode == LoopMode::Loop
        &&& e.base_volume_pct == 40
        &&& e.channel == Channel::WeatherOverlay
        &&& e.is_weather_overlay == true
    } else if i == 33 {
        &&& e.path@ == "weather/thunder.ogg"@
        &&& e.source_kind == LocationKind::Road
        &&& e.propagation == Propagation::Local
        &&& e.time_filter is Any
        &&& e.season_filter is Any
        &&& (e.weather_filter matches WeatherFilter::Only(v) && v@ == seq![Weather::Storm])
        &&& e.loop_mode == LoopMode::OneShot
        &&& e.base_volume_pct == 80
        &&& e.channel == Channel::Events
        &&& e.is_weather_overlay == true
    } else if i == 34 {
        &&& e.path@ == "weather/fog_silence.ogg"@
        &&& e.source_kind == LocationKind::Road
        &&& e.propagation == Propagation::Local
        &&& e.time_filter is Any
        &&& e.season_filter is Any
        &&& (e.weather_filter matches WeatherFilter::Only(v) && v@ == seq![Weather::Fog])
        &&& e.loop_mode == LoopMode::Loop
        &&& e.base_volume_pct == 15
        &&& e.channel == Channel::WeatherOverlay
        &&& e.is_weather_overlay == true
    } else {
        false
    }
}

/// A one-element list.
fn single<T>(x: T) -> (v: Vec<T>)
    ensures
        v@ == seq![x],
{
    let mut v = Vec::new();
    v.push(x);
    v
}

/// Builds the full sound catalog (35 entries).
pub fn build_catalog() -> (r: Vec<SoundEntry>)
    ensures
        r@.len() == 35,
        forall|i: int| 0 <= i < r@.len() ==> catalog_entry_ok(#[trigger] r@[i]),
        forall|i: int| 0 <= i < r@.len() ==> catalog_entry_spec(i, #[trigger] r@[i]),
{

    let mut entries: Vec<SoundEntry> = Vec::new();
    entries.push(SoundEntry {
        path: "pub/fiddle_reel.ogg",
        source_kind: LocationKind::Pub,
        propagation: Propagation::Near,
        time_filter: TimeFilter::Only(vec![TimeOfDay::Night, TimeOfDay::Dusk]),
        season_filter: SeasonFilter::Any,
        weather_filter: WeatherFilter::Any,
        loop_mode: LoopMode::Loop,
        base_volume_pct: 80,
        channel: Channel::Music,
        is_weather_overlay: false,
    });
    assert(catalog_entry_spec(0, entries@[0]));
    entries.push(SoundEntry {
        path: "pub/sean_nos.ogg",
        source_kind: LocationKind::Pub,
        propagation: Propagation::Near,
        time_filter: TimeFilter::Only(single(TimeOfDay::Night)),
        season_filter: SeasonFilter::Any,
        weather_filter: WeatherFilter::Any,
        loop_mode: LoopMode::OneShot,
        base_volume_pct: 60,
        channel: Channel::Music,
        is_weather_overlay: false,
    });
    assert(catalog_entry_spec(1, entries@[1]));
    entries.push(SoundEntry {
        path: "pub/crowd_murmur.ogg",
        source_kind: LocationKind::Pub,
        propagation: Propagation::Local,
        time_filter: TimeFilter::Only(vec![
            TimeOfDay::Afternoon,
            TimeOfDay::Dusk,
            TimeOfDay::Night,
        ]),
        season_filter: SeasonFilter::Any,
        weather_filter: WeatherFilter::Any,
        loop_mode: LoopMode::Loop,
        base_volume_pct: 40,
        channel: Channel::Ambient,
        is_weather_overlay: false,
    });
    assert(catalog_entry_spec(2, entries@[2]));
    entries.push(SoundEntry {
        path: "pub/glasses_clink.ogg",
        source_kind: LocationKind::Pub,
        propagation: Propagation::Local,
        time_filter: TimeFilter::Only(vec![
            TimeOfDay::Afternoon,
            TimeOfDay::Dusk,
            TimeOfDay::Night,
        ]),
        season_filter: SeasonFilter::Any,
        weather_filter: WeatherFilter::Any,
        loop_mode: LoopMode::OneShot,
        base_volume_pct: 30,
        channel: Channel::Events,
        is_weather_overlay: false,
    });
    assert(catalog_entry_spec(3, entries@[3]));
    entries.push(SoundEntry {
        path: "pub/hearth_crackling.ogg",
        source_kind: LocationKind::Pub,
        propagation: Propagation::Local,
        time_filter: TimeFilter::Any,
        season_filter: SeasonFilter::Only(vec![Season::Autumn, Season::Winter]),
        weather_filter: WeatherFilter::Any,
        loop_mode: LoopMode::Loop,
        base_volume_pct: 25,
        channel: Channel::Ambient,
        is_weather_overlay: false,
    });
    assert(catalog_entry_spec(4, entries@[4]));
    entries.push(SoundEntry {
        path: "church/bell_angelus.ogg",
        source_kind: LocationKind::Church,
        propagation: Propagation::Far(60),
        time_filter: TimeFilter::Only(vec![TimeOfDay::Dawn, TimeOfDay::Midday, TimeOfDay::Dusk]),
        season_filter: SeasonFilter::Any,
        weather_filter: WeatherFilter::Any,
        loop_mode: LoopMode::OneShot,
        base_volume_pct: 100,
        channel: Channel::Events,
        is_weather_overlay: false,
    });
    assert(catalog_entry_spec(5, entries@[5]));
    entries.push(SoundEntry {
        path: "church/bell_sunday.ogg",
        source_kind: LocationKind::Church,
        propagation: Propagation::Far(60),
        time_filter: TimeFilter::Only(single(TimeOfDay::Morning)),
        season_filter: SeasonFilter::Any,
        weather_filter: WeatherFilter::Any,
        loop_mode: LoopMode::OneShot,
        base_volume_pct: 100,
        channel: Channel::Events,
        is_weather_overlay: false,
    });
    assert(catalog_entry_spec(6, entries@[6]));
    entries.push(SoundEntry {
        path: "church/hymns.ogg",
        source_kind: LocationKind::Church,
        propagation: Propagation::Medium,
        time_filter: TimeFilter::Only(single(TimeOfDay::Morning)),
        season_filter: SeasonFilter::Any,
        weather_filter: WeatherFilter::Any,
        loop_mode: LoopMode::Loop,
        base_volume_pct: 50,
        channel: Channel::Music,
        is_weather_overlay: false,
    });
    assert(catalog_entry_spec(7, entries@[7]));
    entries.push(SoundEntry {
        path: "church/stone_echo.ogg",
        source_kind: LocationKind::Church,
        propagation: Propagation::Local,
        time_filter: TimeFilter::Any,
        season_filter: SeasonFilter::Any,
        weather_filter: WeatherFilter::Any,
        loop_mode: LoopMode::Loop,
        base_volume_pct: 15,
        channel: Channel::Ambient,
        is_weather_overlay: false,
    });
    assert(catalog_entry_spec(8, entries@[8]));
    entries.push(SoundEntry {
        path: "farm/rooster.ogg",
        source_kind: LocationKind::Farm,
        propagation: Propagation::Near,
        time_filter: TimeFilter::Only(single(TimeOfDay::Dawn)),
        season_filter: SeasonFilter::Any,
        weather_filter: WeatherFilter::Any,
        loop_mode: LoopMode::OneShot,
        base_volume_pct: 70,
        channel: Channel::Nature,
        is_weather_overlay: false,
    });
    assert(catalog_entry_spec(9, entries@[9]));
    entries.push(SoundEntry {
        path: "farm/cattle_lowing.ogg",
        source_kind: LocationKind::Farm,
        propagation: Propagation::Near,
        time_filter: TimeFilter::Only(vec![
            TimeOfDay::Morning,
            TimeOfDay::Midday,
            TimeOfDay::Afternoon,
            TimeOfDay::Dusk,
        ]),
        season_filter: SeasonFilter::Any,
        weather_filter: WeatherFilter::Any,
        loop_mode: LoopMode::OneShot,
        base_volume_pct: 50,
        channel: Channel::Nature,
        is_weather_overlay: false,
    });
    assert(catalog_entry_spec(10, entries@[10]));
    entries.push(SoundEntry {
        path: "farm/sheep_bleating.ogg",
        source_kind: LocationKind::Farm,
        propagation: Propagation::Local,
        time_filter: TimeFilter::Only(vec![
            TimeOfDay::Morning,
            TimeOfDay::Midday,
            TimeOfDay::Afternoon,
            TimeOfDay::Dusk,
        ]),
        season_filter: SeasonFilter::Any,
        weather_filter: WeatherFilter::Any,
        loop_mode: LoopMode::OneShot,
        base_volume_pct: 40,
        channel: Channel::Nature,
        is_weather_overlay: false,
    });
    assert(catalog_entry_spec(11, entries@[11]));
    entries.push(SoundEntry {
        path: "farm/dog_barking.ogg",
        source_kind: LocationKind::Farm,
        propagation: Propagation::Near,
        time_filter: TimeFilter::Any,
        season_filter: SeasonFilter::Any,
        weather_filter: WeatherFilter::Any,
        loop_mode: LoopMode::OneShot,
        base_volume_pct: 50,
        channel: Channel::Nature,
        is_weather_overlay: false,
    });
    assert(catalog_entry_spec(12, entries@[12]));
    entries.push(SoundEntry {
        path: "farm/donkey_braying.ogg",
        source_kind: LocationKind::Farm,
        propagation: Propagation::Medium,
        time_filter: TimeFilter::Any,
        season_filter: SeasonFilter::Any,
        weather_filter: WeatherFilter::Any,
        loop_mode: LoopMode::OneShot,
        base_volume_pct: 60,
        channel: Channel::Nature,
        is_weather_overlay: false,
    });
    assert(catalog_entry_spec(13, entries@[13]));
    entries.push(SoundEntry {
        path: "farm/hens_clucking.ogg",
        source_kind: LocationKind::Farm,
        propagation: Propagation::Local,
        time_filter: TimeFilter::Only(vec![
            TimeOfDay::Morning,
            TimeOfDay::Midday,
            TimeOfDay::Afternoon,
        ]),
        season_filter: SeasonFilter::Any,
        weather_filter: WeatherFilter::Any,
        loop_mode: LoopMode::Loop,
        base_volume_pct: 25,
        channel: Channel::Nature,
        is_weather_overlay: false,
    });
    assert(catalog_entry_spec(14, entries@[14]));
    entries.push(SoundEntry {
        path: "water/water_lapping.ogg",
        source_kind: LocationKind::Waterside,
        propagation: Propagation::Local,
        time_filter: TimeFilter::Any,
        season_filter: SeasonFilter::Any,
        weather_filter: WeatherFilter::Any,
        loop_mode: LoopMode::Loop,
        base_volume_pct: 50,
        channel: Channel::Ambient,
        is_weather_overlay: false,
    });
    assert(catalog_entry_spec(15, entries@[15]));
    entries.push(SoundEntry {
        path: "water/wind_in_reeds.ogg",
        source_kind: LocationKind::Waterside,
        propagation: Propagation::Local,
        time_filter: TimeFilter::Any,
        season_filter: SeasonFilter::Any,
        weather_filter: WeatherFilter::Any,
        loop_mode: LoopMode::Loop,
        base_volume_pct: 35,
        channel: Channel::Ambient,
        is_weather_overlay: false,
    });
    assert(catalog_entry_spec(16, entries@[16]));
    entries.push(SoundEntry {
        path: "water/waterfowl.ogg",
        source_kind: LocationKind::Waterside,
        propagation: Propagation::Local,
        time_filter: TimeFilter::Only(vec![TimeOfDay::Dawn, TimeOfDay::Dusk]),
        season_filter: SeasonFilter::Only(vec![Season::Spring, Season::Summer]),
        weather_filter: WeatherFilter::Any,
        loop_mode: LoopMode::OneShot,
        base_volume_pct: 40,
        channel: Channel::Nature,
        is_weather_overlay: false,
    });
    assert(catalog_entry_spec(17, entries@[17]));
    entries.push(SoundEntry {
        path: "bog/wind_over_bog.ogg",
        source_kind: LocationKind::Bog,
        propagation: Propagation::Local,
        time_filter: TimeFilter::Any,
        season_filter: SeasonFilter::Any,
        weather_filter: WeatherFilter::Any,
        loop_mode: LoopMode::Loop,
        base_volume_pct: 45,
        channel: Channel::Ambient,
        is_weather_overlay: false,
    });
    assert(catalog_entry_spec(18, entries@[18]));
    entries.push(SoundEntry {
        path: "bog/curlew_call.ogg",
        source_kind: LocationKind::Bog,
        propagation: Propagation::Near,
        time_filter: TimeFilter::Only(vec![TimeOfDay::Dawn, TimeOfDay::Dusk]),
        season_filter: SeasonFilter::Only(vec![Season::Spring, Season::Summer]),
        weather_filter: WeatherFilter::Any,
        loop_mode: LoopMode::OneShot,
        base_volume_pct: 50,
        channel: Channel::Nature,
        is_weather_overlay: false,
    });
    assert(catalog_entry_spec(19, entries@[19]));
    entries.push(SoundEntry {
        path: "bog/bog_silence.ogg",
        source_kind: LocationKind::Bog,
        propagation: Propagation::Local,
        time_filter: TimeFilter::Only(vec![TimeOfDay::Night, TimeOfDay::Midnight]),
        season_filter: SeasonFilter::Any,
        weather_filter: WeatherFilter::Any,
        loop_mode: LoopMode::Loop,
        base_volume_pct: 10,
        channel: Channel::Ambient,
        is_weather_overlay: false,
    });
    assert(catalog_entry_spec(20, entries@[20]));
    entries.push(SoundEntry {
        path: "crossroads/dance_music.ogg",
        source_kind: LocationKind::Crossroads,
        propagation: Propagation::Near,
        time_filter: TimeFilter::Only(vec![TimeOfDay::Dusk, TimeOfDay::Night]),
        season_filter: SeasonFilter::Only(single(Season::Summer)),
        weather_filter: WeatherFilter::Any,
        loop_mode: LoopMode::Loop,
        base_volume_pct: 70,
        channel: Channel::Music,
        is_weather_overlay: false,
    });
    assert(catalog_entry_spec(21, entries@[21]));
    entries.push(SoundEntry {
        path: "crossroads/wind.ogg",
        source_kind: LocationKind::Crossroads,
        propagation: Propagation::Local,
        time_filter: TimeFilter::Any,
        season_filter: SeasonFilter::Any,
        weather_filter: WeatherFilter::Any,
        loop_mode: LoopMode::Loop,
        base_volume_pct: 30,
        channel: Channel::Ambient,
        is_weather_overlay: false,
    });
    assert(catalog_entry_spec(22, entries@[22]));
    entries.push(SoundEntry {
        path: "village/rooster.ogg",
        source_kind: LocationKind::Village,
        propagation: Propagation::Local,
        time_filter: TimeFilter::Only(single(TimeOfDay::Dawn)),
        season_filter: SeasonFilter::Any,
        weather_filter: WeatherFilter::Any,
        loop_mode: LoopMode::OneShot,
        base_volume_pct: 50,
        channel: Channel::Nature,
        is_weather_overlay: false,
    });
    assert(catalog_entry_spec(23, entries@[23]));
    entries.push(SoundEntry {
        path: "village/children_playing.ogg",
        source_kind: LocationKind::Village,
        propagation: Propagation::Local,
        time_filter: TimeFilter::Only(vec![TimeOfDay::Morning, TimeOfDay::Afternoon]),
        season_filter: SeasonFilter::Only(vec![Season::Spring, Season::Summer, Season::Autumn]),
        weather_filter: WeatherFilter::Any,
        loop_mode: LoopMode::OneShot,
        base_volume_pct: 40,
        channel: Channel::Nature,
        is_weather_overlay: false,
    });
    assert(catalog_entry_spec(24, entries@[24]));
    entries.push(SoundEntry {
        path: "village/door_footsteps.ogg",
        source_kind: LocationKind::Village,
        propagation: Propagation::Local,
        time_filter: TimeFilter::Only(vec![
            TimeOfDay::Morning,
            TimeOfDay::Midday,
            TimeOfDay::Afternoon,
            TimeOfDay::Dusk,
        ]),
        season_filter: SeasonFilter::Any,
        weather_filter: WeatherFilter::Any,
        loop_mode: LoopMode::OneShot,
        base_volume_pct: 30,
        channel: Channel::Events,
        is_weather_overlay: false,
    });
    assert(catalog_entry_spec(25, entries@[25]));
    entries.push(SoundEntry {
        path: "village/evening_settling.ogg",
        source_kind: LocationKind::Village,
        propagation: Propagation::Local,
        time_filter: TimeFilter::Only(single(TimeOfDay::Dusk)),
        season_filter: SeasonFilter::Any,
        weather_filter: WeatherFilter::Any,
        loop_mode: LoopMode::Loop,
        base_volume_pct: 25,
        channel: Channel::Ambient,
        is_weather_overlay: false,
    });
    assert(catalog_entry_spec(26, entries@[26]));
    entries.push(SoundEntry {
        path: "fairy_fort/hawthorn_wind.ogg",
        source_kind: LocationKind::FairyFort,
        propagation: Propagation::Local,
        time_filter: TimeFilter::Any,
        season_filter: SeasonFilter::Any,
        weather_filter: WeatherFilter::Any,
        loop_mode: LoopMode::Loop,
        base_volume_pct: 35,
        channel: Channel::Ambient,
        is_weather_overlay: false,
    });
    assert(catalog_entry_spec(27, entries@[27]));
    entries.push(SoundEntry {
        path: "fairy_fort/uncanny_silence.ogg",
        source_kind: LocationKind::FairyFort,
        propagation: Propagation::Local,
        time_filter: TimeFilter::Only(vec![TimeOfDay::Night, TimeOfDay::Midnight]),
        season_filter: SeasonFilter::Any,
        weather_filter: WeatherFilter::Any,
        loop_mode: LoopMode::Loop,
        base_volume_pct: 10,
        channel: Channel::Ambient,
        is_weather_overlay: false,
    });
    assert(catalog_entry_spec(28, entries@[28]));
    entries.push(SoundEntry {
        path: "fairy_fort/samhain_atmosphere.ogg",
        source_kind: LocationKind::FairyFort,
        propagation: Propagation::Local,
        time_filter: TimeFilter::Only(single(TimeOfDay::Night)),
        season_filter: SeasonFilter::Only(single(Season::Autumn)),
        weather_filter: WeatherFilter::Any,
        loop_mode: LoopMode::Loop,
        base_volume_pct: 30,
        channel: Channel::Ambient,
        is_weather_overlay: false,
    });
    assert(catalog_entry_spec(29, entries@[29]));
    entries.push(SoundEntry {
        path: "weather/light_rain.ogg",
        source_kind: LocationKind::Road,
        propagation: Propagation::Local,
        time_filter: TimeFilter::Any,
        season_filter: SeasonFilter::Any,
        weather_filter: WeatherFilter::Only(single(Weather::Rain)),
        loop_mode: LoopMode::Loop,
        base_volume_pct: 50,
        channel: Channel::WeatherOverlay,
        is_weather_overlay: true,
    });
    assert(catalog_entry_spec(30, entries@[30]));
    entries.push(SoundEntry {
        path: "weather/heavy_rain.ogg",
        source_kind: LocationKind::Road,
        propagation: Propagation::Local,
        time_filter: TimeFilter::Any,
        season_filter: SeasonFilter::Any,
        weather_filter: WeatherFilter::Only(single(Weather::Storm)),
        loop_mode: LoopMode::Loop,
        base_volume_pct: 70,
        channel: Channel::WeatherOverlay,
        is_weather_overlay: true,
    });
    assert(catalog_entry_spec(31, entries@[31]));
    entries.push(SoundEntry {
        path: "weather/wind.ogg",
        source_kind: LocationKind::Road,
        propagation: Propagation::Local,
        time_filter: TimeFilter::Any,
        season_filter: SeasonFilter::Any,
        weather_filter: WeatherFilter::Only(vec![Weather::Rain, Weather::Storm]),
        loop_mode: LoopMode::Loop,
        base_volume_pct: 40,
        channel: Channel::WeatherOverlay,
        is_weather_overlay: true,
    });
    assert(catalog_entry_spec(32, entries@[32]));
    entries.push(SoundEntry {
        path: "weather/thunder.ogg",
        source_kind: LocationKind::Road,
        propagation: Propagation::Local,
        time_filter: TimeFilter::Any,
        season_filter: SeasonFilter::Any,
        weather_filter: WeatherFilter::Only(single(Weather::Storm)),
        loop_mode: LoopMode::OneShot,
        base_volume_pct: 80,
        channel: Channel::Events,
        is_weather_overlay: true,
    });
    assert(catalog_entry_spec(33, entries@[33]));
    entries.push(SoundEntry {
        path: "weather/fog_silence.ogg",
        source_kind: LocationKind::Road,
        propagation: Propagation::Local,
        time_filter: TimeFilter::Any,
        season_filter: SeasonFilter::Any,
        weather_filter: WeatherFilter::Only(single(Weather::Fog)),
        loop_mode: LoopMode::Loop,
        base_volume_pct: 15,
        channel: Channel::WeatherOverlay,
        is_weather_overlay: true,
    });
    assert(catalog_entry_spec(34, entries@[34]));
    entries
}

/// The complete catalog of ambient sounds.
#[derive(Debug)]
pub struct SoundCatalog {
    entries: Vec<SoundEntry>,
}

impl View for SoundCatalog {
    type V = Seq<SoundEntry>;

    closed spec fn view(&self) -> Seq<SoundEntry> {
        self.entries@
    }
}

impl SoundCatalog {
    /// Builds the complete sound catalog.
    pub fn new() -> (r: Self)
        ensures
            r@.len() == 35,
            forall|i: int| 0 <= i < r@.len() ==> catalog_entry_ok(#[trigger] r@[i]),
            forall|i: int| 0 <= i < r@.len() ==> catalog_entry_spec(i, #[trigger] r@[i]),
    {
        SoundCatalog { entries: build_catalog() }
    }

    /// Returns all sound entries.
    pub fn entries(&self) -> (r: &Vec<SoundEntry>)
        ensures
            r@ == self@,
    {
        &self.entries
    }

    /// Returns the non-overlay entries of a location kind, in catalog order.
    pub fn entries_for_kind(&self, kind: LocationKind) -> (r: Vec<&SoundEntry>)
        ensures
            r@.len() == self@.filter(|e: SoundEntry| !e.is_weather_overlay && e.source_kind == kind).len(),
            forall|i: int| 0 <= i < r@.len() ==> *r@[i] == self@.filter(
                |e: SoundEntry| !e.is_weather_overlay && e.source_kind == kind,
            )[i],
    {
        let ghost f = |e: SoundEntry| !e.is_weather_overlay && e.source_kind == kind;
        let mut r: Vec<&SoundEntry> = Vec::new();
        let mut i: usize = 0;
        while i < self.entries.len()
            invariant
                i <= self@.len(),
                f == (|e: SoundEntry| !e.is_weather_overlay && e.source_kind == kind),
                r@.len() == self@.take(i as int).filter(f).len(),
                forall|j: int| 0 <= j < r@.len() ==> *r@[j] == self@.take(i as int).filter(f)[j],
            decreases self@.len() - i,
        {
            let e = &self.entries[i];
            let hit = !e.is_weather_overlay && e.source_kind == kind;
            if hit {
                r.push(e);
            }
            proof {
                reveal(Seq::filter);
                assert(self@.take(i + 1).drop_last() == self@.take(i as int));
                assert(self@.take(i + 1).last() == self@[i as int]);
            }
            i = i + 1;
        }
        assert(self@.take(self@.len() as int) == self@);
        r
    }

    /// Returns all weather overlay entries, in catalog order.
    pub fn weather_entries(&self) -> (r: Vec<&SoundEntry>)
        ensures
            r@.len() == self@.filter(|e: SoundEntry| e.is_weather_overlay).len(),
            forall|i: int| 0 <= i < r@.len() ==> *r@[i] == self@.filter(
                |e: SoundEntry| e.is_weather_overlay,
            )[i],
    {
        let ghost f = |e: SoundEntry| e.is_weather_overlay;
        let mut r: Vec<&SoundEntry> = Vec::new();
        let mut i: usize = 0;
        while i < self.entries.len()
            invariant
                i <= self@.len(),
                f == (|e: SoundEntry| e.is_weather_overlay),
                r@.len() == self@.take(i as int).filter(f).len(),
                forall|j: int| 0 <= j < r@.len() ==> *r@[j] == self@.take(i as int).filter(f)[j],
            decreases self@.len() - i,
        {
            let e = &self.entries[i];
            if e.is_weather_overlay {
                r.push(e);
            }
            proof {
                reveal(Seq::filter);
                assert(self@.take(i + 1).drop_last() == self@.take(i as int));
                assert(self@.take(i + 1).last() == self@[i as int]);
            }
            i = i + 1;
        }
        assert(self@.take(self@.len() as int) == self@);
        r
    }

    /// Returns the entries playing at a location of a kind under the given
    /// time, season and weather, in catalog order.
    pub fn matching_entries(
        &self,
        kind: LocationKind,
        time: TimeOfDay,
        season: Season,
        weather: Weather,
    ) -> (r: Vec<&SoundEntry>)
        ensures
            r@.len() == self@.filter(|e: SoundEntry| entry_matches(e, kind, time, season, weather)).len(),
            forall|i: int| 0 <= i < r@.len() ==> *r@[i] == self@.filter(
                |e: SoundEntry| entry_matches(e, kind, time, season, weather),
            )[i],
    {
        let ghost f = |e: SoundEntry| entry_matches(e, kind, time, season, weather);
        let mut r: Vec<&SoundEntry> = Vec::new();
        let mut i: usize = 0;
        while i < self.entries.len()
            invariant
                i <= self@.len(),
                f == (|e: SoundEntry| entry_matches(e, kind, time, season, weather)),
                r@.len() == self@.take(i as int).filter(f).len(),
                forall|j: int| 0 <= j < r@.len() ==> *r@[j] == self@.take(i as int).filter(f)[j],
            decreases self@.len() - i,
        {
            let e = &self.entries[i];
            let hit = !e.is_weather_overlay && e.source_kind == kind && e.time_filter.matches(time)
                && e.season_filter.matches(season) && e.weather_filter.matches(weather);
            if hit {
                r.push(e);
            }
            proof {
                reveal(Seq::filter);
                assert(self@.take(i + 1).drop_last() == self@.take(i as int));
                assert(self@.take(i + 1).last() == self@[i as int]);
            }
            i = i + 1;
        }
        assert(self@.take(self@.len() as int) == self@);
        r
    }

    /// Returns the weather overlays playing in the given weather.
    pub fn matching_weather_entries(&self, weather: Weather) -> (r: Vec<&SoundEntry>)
        ensures
            r@.len() == self@.filter(|e: SoundEntry| overlay_matches(e, weather)).len(),
            forall|i: int| 0 <= i < r@.len() ==> *r@[i] == self@.filter(
                |e: SoundEntry| overlay_matches(e, weather),
            )[i],
    {
        let ghost f = |e: SoundEntry| overlay_matches(e, weather);
        let mut r: Vec<&SoundEntry> = Vec::new();
        let mut i: usize = 0;
        while i < self.entries.len()
            invariant
                i <= self@.len(),
                f == (|e: SoundEntry| overlay_matches(e, weather)),
                r@.len() == self@.take(i as int).filter(f).len(),
                forall|j: int| 0 <= j < r@.len() ==> *r@[j] == self@.take(i as int).filter(f)[j],
            decreases self@.len() - i,
        {
            let e = &self.entries[i];
            let hit = e.is_weather_overlay && e.weather_filter.matches(weather);
            if hit {
                r.push(e);
            }
            proof {
                reveal(Seq::filter);
                assert(self@.take(i + 1).drop_last() == self@.take(i as int));
                assert(self@.take(i + 1).last() == self@[i as int]);
            }
            i = i + 1;
        }
        assert(self@.take(self@.len() as int) == self@);
        r
    }

    /// Returns the total number of entries in the catalog.
    pub fn len(&self) -> (r: usize)
        ensures
            r == self@.len(),
    {
        self.entries.len()
    }

    /// Returns true if the catalog is empty.
    pub fn is_empty(&self) -> (r: bool)
        ensures
            r == (self@.len() == 0),
    {
        self.entries.len() == 0
    }
}

impl Default for SoundCatalog {
    fn default() -> (r: Self)
        ensures
            r@.len() == 35,
            forall|i: int| 0 <= i < r@.len() ==> catalog_entry_ok(#[trigger] r@[i]),
            forall|i: int| 0 <= i < r@.len() ==> catalog_entry_spec(i, #[trigger] r@[i]),
    {
        Self::new()
    }
}

} // verus!
