//! The world vocabulary the rules read: locations, weather, time of day,
//! seasons and festivals.

use vstd::prelude::*;

use crate::text::owned;

verus! {

/// Identifier of a location in the parish graph.
#[derive(Debug, Clone, Copy, PartialEq, Eq, Hash, Structural)]
pub struct LocationId(pub u32);

/// The kind of a location, which decides what it sounds like.
#[derive(Debug, Clone, Copy, PartialEq, Eq, Structural)]
pub enum LocationKind {
    Pub,
    Church,
    Crossroads,
    Farm,
    Bog,
    FairyFort,
    Road,
    Village,
    Waterside,
}

/// Current weather over the parish.
#[derive(Debug, Clone, Copy, PartialEq, Eq, Structural)]
pub enum Weather {
    Clear,
    Overcast,
    Rain,
    Fog,
    Storm,
}

/// Coarse time of day.
#[derive(Debug, Clone, Copy, PartialEq, Eq, Structural)]
pub enum TimeOfDay {
    Dawn,
    Morning,
    Midday,
    Afternoon,
    Dusk,
    Night,
    Midnight,
}

/// Season of the year.
#[derive(Debug, Clone, Copy, PartialEq, Eq, Structural)]
pub enum Season {
    Spring,
    Summer,
    Autumn,
    Winter,
}

/// The four Gaelic quarter-day festivals.
#[derive(Debug, Clone, Copy, PartialEq, Eq, Structural)]
pub enum Festival {
    Imbolc,
    Bealtaine,
    Lughnasa,
    Samhain,
}

/// The name of a time of day, as displayed.
pub open spec fn time_of_day_name(t: TimeOfDay) -> Seq<char> {
    match t {
        TimeOfDay::Dawn => "Dawn"@,
        TimeOfDay::Morning => "Morning"@,
        TimeOfDay::Midday => "Midday"@,
        TimeOfDay::Afternoon => "Afternoon"@,
        TimeOfDay::Dusk => "Dusk"@,
        TimeOfDay::Night => "Night"@,
        TimeOfDay::Midnight => "Midnight"@,
    }
}

impl TimeOfDay {
    /// The displayed name ("Dawn", "Morning", ...).
    pub fn to_string(&self) -> (r: String)
        ensures
            r@ == time_of_day_name(*self),
    {
        match self {
            TimeOfDay::Dawn => owned("Dawn"),
            TimeOfDay::Morning => owned("Morning"),
            TimeOfDay::Midday => owned("Midday"),
            TimeOfDay::Afternoon => owned("Afternoon"),
            TimeOfDay::Dusk => owned("Dusk"),
            TimeOfDay::Night => owned("Night"),
            TimeOfDay::Midnight => owned("Midnight"),
        }
    }
}

/// The name of a season, as displayed.
pub open spec fn season_name(s: Season) -> Seq<char> {
    match s {
        Season::Spring => "Spring"@,
        Season::Summer => "Summer"@,
        Season::Autumn => "Autumn"@,
        Season::Winter => "Winter"@,
    }
}

impl Season {
    /// The displayed name ("Spring", ...).
    pub fn to_string(&self) -> (r: String)
        ensures
            r@ == season_name(*self),
    {
        match self {
            Season::Spring => owned("Spring"),
            Season::Summer => owned("Summer"),
            Season::Autumn => owned("Autumn"),
            Season::Winter => owned("Winter"),
        }
    }
}

/// The name of a weather condition, as displayed.
pub open spec fn weather_name(w: Weather) -> Seq<char> {
    match w {
        Weather::Clear => "Clear"@,
        Weather::Overcast => "Overcast"@,
        Weather::Rain => "Rain"@,
        Weather::Fog => "Fog"@,
        Weather::Storm => "Storm"@,
    }
}

impl Weather {
    /// The displayed name ("Clear", ...).
    pub fn to_string(&self) -> (r: String)
        ensures
            r@ == weather_name(*self),
    {
        match self {
            Weather::Clear => owned("Clear"),
            Weather::Overcast => owned("Overcast"),
            Weather::Rain => owned("Rain"),
            Weather::Fog => owned("Fog"),
            Weather::Storm => owned("Storm"),
        }
    }
}

/// The name of a festival, as displayed.
pub open spec fn festival_name(f: Festival) -> Seq<char> {
    match f {
        Festival::Imbolc => "Imbolc"@,
        Festival::Bealtaine => "Bealtaine"@,
        Festival::Lughnasa => "Lughnasa"@,
        Festival::Samhain => "Samhain"@,
    }
}

impl Festival {
    /// The displayed name ("Imbolc", ...).
    pub fn to_string(&self) -> (r: String)
        ensures
            r@ == festival_name(*self),
    {
        match self {
            Festival::Imbolc => owned("Imbolc"),
            Festival::Bealtaine => owned("Bealtaine"),
            Festival::Lughnasa => owned("Lughnasa"),
            Festival::Samhain => owned("Samhain"),
        }
    }
}

} // verus!
