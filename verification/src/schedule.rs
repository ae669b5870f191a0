//! NPC daily schedules.
//!
//! Each NPC has a weekday and a weekend schedule; seasonal overrides take
//! precedence when they cover the hour. An entry covers the hours from
//! its start (inclusive) to its end (exclusive), wrapping past midnight
//! when the end is not after the start.

use vstd::prelude::*;

use crate::world::{LocationId, Season};

verus! {

/// A single entry in an NPC's daily schedule.
#[derive(Debug)]
pub struct ScheduleEntry {
    /// Hour this activity starts (0-23).
    pub start_hour: u8,
    /// Hour this activity ends (0-23, exclusive).
    pub end_hour: u8,
    /// Where the NPC should be during this time.
    pub location: LocationId,
    /// What the NPC is doing.
    pub activity: String,
}

/// Season key for schedule overrides.
#[derive(Debug, Clone, Copy, PartialEq, Eq, Structural)]
pub enum SeasonKey {
    /// Spring override.
    Spring,
    /// Summer override.
    Summer,
    /// Autumn override.
    Autumn,
    /// Winter override.
    Winter,
}

/// The key of a season.
pub open spec fn season_key(s: Season) -> SeasonKey {
    match s {
        Season::Spring => SeasonKey::Spring,
        Season::Summer => SeasonKey::Summer,
        Season::Autumn => SeasonKey::Autumn,
        Season::Winter => SeasonKey::Winter,
    }
}

impl SeasonKey {
    /// The key of a season.
    pub fn from_season(s: Season) -> (r: SeasonKey)
        ensures
            r == season_key(s),
    {
        match s {
            Season::Spring => SeasonKey::Spring,
            Season::Summer => SeasonKey::Summer,
            Season::Autumn => SeasonKey::Autumn,
            Season::Winter => SeasonKey::Winter,
        }
    }
}

impl From<Season> for SeasonKey {
    fn from(s: Season) -> (r: SeasonKey) {
        SeasonKey::from_season(s)
    }
}

impl vstd::std_specs::convert::FromSpecImpl<Season> for SeasonKey {
    open spec fn obeys_from_spec() -> bool {
        true
    }

    open spec fn from_spec(s: Season) -> SeasonKey {
        season_key(s)
    }
}

/// Seasonal override schedules, at most one per season.
#[derive(Debug)]
pub struct SeasonalOverrides {
    /// Spring schedule.
    pub spring: Option<Vec<ScheduleEntry>>,
    /// Summer schedule.
    pub summer: Option<Vec<ScheduleEntry>>,
    /// Autumn schedule.
    pub autumn: Option<Vec<ScheduleEntry>>,
    /// Winter schedule.
    pub winter: Option<Vec<ScheduleEntry>>,
}

impl SeasonalOverrides {
    /// No overrides.
    pub fn new() -> (r: Self)
        ensures
            r.spring is None && r.summer is None && r.autumn is None && r.winter is None,
    {
        SeasonalOverrides { spring: None, summer: None, autumn: None, winter: None }
    }

    /// The override for a season, if any.
    pub open spec fn spec_get(&self, k: SeasonKey) -> Option<Vec<ScheduleEntry>> {
        match k {
            SeasonKey::Spring => self.spring,
            SeasonKey::Summer => self.summer,
            SeasonKey::Autumn => self.autumn,
            SeasonKey::Winter => self.winter,
        }
    }

    /// The override for a season, if any.
    pub fn get(&self, k: SeasonKey) -> (r: &Option<Vec<ScheduleEntry>>)
        ensures
            *r == self.spec_get(k),
    {
        match k {
            SeasonKey::Spring => &self.spring,
            SeasonKey::Summer => &self.summer,
            SeasonKey::Autumn => &self.autumn,
            SeasonKey::Winter => &self.winter,
        }
    }

    /// Sets the override for a season, replacing any earlier one.
    pub fn insert(&mut self, k: SeasonKey, entries: Vec<ScheduleEntry>)
        ensures
            final(self).spec_get(k) == Some(entries),
            forall|o: SeasonKey| o != k ==> final(self).spec_get(o) == old(self).spec_get(o),
    {
        match k {
            SeasonKey::Spring => self.spring = Some(entries),
            SeasonKey::Summer => self.summer = Some(entries),
            SeasonKey::Autumn => self.autumn = Some(entries),
            SeasonKey::Winter => self.winter = Some(entries),
        }
    }
}

/// An NPC's daily schedule with weekday, weekend and seasonal variants.
#[derive(Debug)]
pub struct DailySchedule {
    /// Schedule entries for weekdays (Monday-Friday).
    pub weekday: Vec<ScheduleEntry>,
    /// Schedule entries for weekends (Saturday-Sunday).
    pub weekend: Vec<ScheduleEntry>,
    /// Seasonal overrides (checked first).
    pub overrides: SeasonalOverrides,
}

/// Whether an entry covers an hour.
pub open spec fn covers(e: ScheduleEntry, hour: int) -> bool {
    if e.start_hour <= e.end_hour {
        e.start_hour <= hour && hour < e.end_hour
    } else {
        hour >= e.start_hour || hour < e.end_hour
    }
}

/// Law: an entry covers the hours from its start hour (included) round
/// the clock to its end hour (excluded), wrapping past midnight when it
/// ends before it starts: hour `h` is covered exactly when it lies fewer
/// hours after the start than the end does. In particular every entry
/// covers its own start hour unless it starts and ends at once.
pub proof fn law_entry_covers_circular_span(e: ScheduleEntry, h: int)
    requires
        e.start_hour < 24,
        e.end_hour < 24,
        0 <= h < 24,
    ensures
        covers(e, h) <==> (h - e.start_hour) % 24 < (e.end_hour - e.start_hour) % 24,
        e.start_hour != e.end_hour ==> covers(e, e.start_hour as int),
        !covers(e, e.end_hour as int),
{
}

/// Whether `r` is the first entry of `entries` covering `hour` (or `None`
/// when no entry covers it).
pub open spec fn is_first_covering(
    entries: Seq<ScheduleEntry>,
    hour: int,
    r: Option<&ScheduleEntry>,
) -> bool {
    match r {
        Some(e) => exists|i: int|
            0 <= i < entries.len() && *e == entries[i] && covers(entries[i], hour) && forall|j: int|
                0 <= j < i ==> !covers(#[trigger] entries[j], hour),
        None => forall|i: int| 0 <= i < entries.len() ==> !covers(#[trigger] entries[i], hour),
    }
}

/// Finds the first schedule entry that covers the given hour.
pub fn find_entry(entries: &[ScheduleEntry], hour: u8) -> (r: Option<&ScheduleEntry>)
    ensures
        is_first_covering(entries@, hour as int, r),
{
    let mut i: usize = 0;
    while i < entries.len()
        invariant
            i <= entries@.len(),
            forall|j: int| 0 <= j < i ==> !covers(#[trigger] entries@[j], hour as int),
        decreases entries@.len() - i,
    {
        let e = &entries[i];
        let hit = if e.start_hour <= e.end_hour {
            hour >= e.start_hour && hour < e.end_hour
        } else {
            hour >= e.start_hour || hour < e.end_hour
        };
        if hit {
            return Some(e);
        }
        i = i + 1;
    }
    None
}

/// Hour of day (UTC) of a timestamp in seconds since the epoch.
pub open spec fn hour_of(ts: int) -> int {
    (ts % 86400) / 3600
}

/// Day of the week of a timestamp, 0 = Monday (1970-01-01 was a Thursday).
pub open spec fn weekday_of(ts: int) -> int {
    (ts / 86400 + 3) % 7
}

/// Whether a timestamp falls on a Saturday or Sunday.
pub open spec fn is_weekend(ts: int) -> bool {
    weekday_of(ts) >= 5
}

/// The hour of day (UTC) of a timestamp.
pub fn hour_of_timestamp(ts: i64) -> (r: u8)
    ensures
        r == hour_of(ts as int),
        r < 24,
{
    let d = ts.checked_rem_euclid(86400).unwrap();
    (d / 3600) as u8
}

/// Whether a timestamp falls on a weekend (UTC).
pub fn timestamp_is_weekend(ts: i64) -> (r: bool)
    ensures
        r == is_weekend(ts as int),
{
    let days = ts.checked_div_euclid(86400).unwrap();
    let w = (days + 3).checked_rem_euclid(7).unwrap();
    w >= 5
}

impl DailySchedule {
    /// The entries that decide an hour: the season's override when one of
    /// its entries covers the hour, else the weekend or weekday schedule.
    pub open spec fn deciding_entries(&self, hour: int, weekend: bool, season: Season) -> Seq<
        ScheduleEntry,
    > {
        let ov = self.overrides.spec_get(season_key(season));
        if ov matches Some(v) && exists|i: int| 0 <= i < v@.len() && covers(#[trigger] v@[i], hour) {
            ov->0@
        } else if weekend {
            self.weekend@
        } else {
            self.weekday@
        }
    }

    /// The entry for an hour: a seasonal override covering it wins, then the
    /// weekend or weekday schedule (first covering entry in each).
    pub fn entry_at(&self, hour: u8, weekend: bool, season: Season) -> (r: Option<&ScheduleEntry>)
        ensures
            is_first_covering(self.deciding_entries(hour as int, weekend, season), hour as int, r),
    {
        let key = SeasonKey::from_season(season);
        match self.overrides.get(key) {
            Some(v) => {
                let found = find_entry(v.as_slice(), hour);
                if found.is_some() {
                    return found;
                }
            },
            None => {},
        }
        if weekend {
            find_entry(self.weekend.as_slice(), hour)
        } else {
            find_entry(self.weekday.as_slice(), hour)
        }
    }

    /// The entry for a moment (seconds since the epoch, UTC) in a season.
    pub fn current_entry(&self, now: i64, season: Season) -> (r: Option<&ScheduleEntry>)
        ensures
            is_first_covering(
                self.deciding_entries(hour_of(now as int), is_weekend(now as int), season),
                hour_of(now as int),
                r,
            ),
    {
        let hour = hour_of_timestamp(now);
        let weekend = timestamp_is_weekend(now);
        self.entry_at(hour, weekend, season)
    }

    /// The location the schedule wants the NPC at, at a moment in a season:
    /// that of the entry `current_entry` finds.
    pub fn desired_location(&self, now: i64, season: Season) -> (r: Option<LocationId>)
        ensures
            ({
                let hour = hour_of(now as int);
                let entries = self.deciding_entries(hour, is_weekend(now as int), season);
                match r {
                    Some(l) => exists|i: int|
                        0 <= i < entries.len() && entries[i].location == l && covers(
                            entries[i],
                            hour,
                        ) && forall|j: int| 0 <= j < i ==> !covers(#[trigger] entries[j], hour),
                    None => forall|i: int|
                        0 <= i < entries.len() ==> !covers(#[trigger] entries[i], hour),
                }
            }),
    {
        let found = self.current_entry(now, season);
        match found {
            Some(e) => {
                let ghost hour = hour_of(now as int);
                let ghost entries = self.deciding_entries(hour, is_weekend(now as int), season);
                let ghost i = choose|i: int|
                    0 <= i < entries.len() && *e == entries[i] && covers(entries[i], hour)
                        && forall|j: int| 0 <= j < i ==> !covers(#[trigger] entries[j], hour);
                assert(entries[i].location == e.location);
                Some(e.location)
            },
            None => None,
        }
    }
}

/// The current state of an NPC's movement.
#[derive(Debug, Clone, Copy, PartialEq, Eq, Structural)]
pub enum NpcState {
    /// NPC is at a location.
    Present(LocationId),
    /// NPC is travelling between locations.
    InTransit {
        /// Where they came from.
        from: LocationId,
        /// Where they are going.
        to: LocationId,
        /// When they will arrive (game time, seconds since the epoch).
        arrives_at: i64,
    },
}

impl NpcState {
    /// Returns the location the NPC is at, or `None` while in transit.
    pub fn location(&self) -> (r: Option<LocationId>)
        ensures
            r == (match *self {
                NpcState::Present(l) => Some(l),
                NpcState::InTransit { .. } => None,
            }),
    {
        match self {
            NpcState::Present(loc) => Some(*loc),
            NpcState::InTransit { .. } => None,
        }
    }

    /// Returns true if the NPC is present at the given location.
    pub fn is_at(&self, location: LocationId) -> (r: bool)
        ensures
            r == (*self == NpcState::Present(location)),
    {
        match self {
            NpcState::Present(loc) => *loc == location,
            NpcState::InTransit { .. } => false,
        }
    }
}

/// The default state for loaded NPCs: present at location 1.
pub fn default_npc_state() -> (r: NpcState)
    ensures
        r == NpcState::Present(LocationId(1)),
{
    NpcState::Present(LocationId(1))
}

} // verus!
