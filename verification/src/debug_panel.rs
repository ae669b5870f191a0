//! State of the debug inspection panel: event categories, structured debug
//! events, the active tab and the panel's persistent UI state.

use vstd::prelude::*;

use crate::npc::NpcId;
use crate::text::owned;
use crate::world::LocationId;

verus! {

/// Maximum number of debug events to retain.
pub const DEBUG_EVENT_CAPACITY: usize = 500;

/// Category of a debug event, for color-coding and filtering.
#[derive(Debug, Clone, Copy, PartialEq, Eq, Structural)]
pub enum DebugEventCategory {
    /// Player or NPC movement.
    Movement,
    /// NPC schedule transitions.
    Schedule,
    /// Player-NPC dialogue started.
    Conversation,
    /// NPC tier reassignment.
    TierChange,
    /// NPC mood update.
    MoodChange,
    /// Relationship strength change.
    Relationship,
    /// Atmospheric overheard event.
    Overheard,
    /// System event (clock, weather, etc.).
    System,
}

/// The short label shown for a category.
pub open spec fn category_label(c: DebugEventCategory) -> Seq<char> {
    match c {
        DebugEventCategory::Movement => "MOVE"@,
        DebugEventCategory::Schedule => "SCHED"@,
        DebugEventCategory::Conversation => "CHAT"@,
        DebugEventCategory::TierChange => "TIER"@,
        DebugEventCategory::MoodChange => "MOOD"@,
        DebugEventCategory::Relationship => "REL"@,
        DebugEventCategory::Overheard => "HEAR"@,
        DebugEventCategory::System => "SYS"@,
    }
}

/// The display color of a category, as (red, green, blue).
pub open spec fn category_rgb(c: DebugEventCategory) -> (u8, u8, u8) {
    match c {
        DebugEventCategory::Movement => (100, 180, 255),
        DebugEventCategory::Schedule => (180, 180, 100),
        DebugEventCategory::Conversation => (100, 220, 100),
        DebugEventCategory::TierChange => (200, 140, 255),
        DebugEventCategory::MoodChange => (255, 180, 100),
        DebugEventCategory::Relationship => (255, 130, 130),
        DebugEventCategory::Overheard => (150, 200, 200),
        DebugEventCategory::System => (180, 180, 180),
    }
}

impl DebugEventCategory {
    /// The short label of the category ("MOVE", "SCHED", ...).
    pub fn to_string(&self) -> (r: String)
        ensures
            r@ == category_label(*self),
    {
        match self {
            DebugEventCategory::Movement => owned("MOVE"),
            DebugEventCategory::Schedule => owned("SCHED"),
            DebugEventCategory::Conversation => owned("CHAT"),
            DebugEventCategory::TierChange => owned("TIER"),
            DebugEventCategory::MoodChange => owned("MOOD"),
            DebugEventCategory::Relationship => owned("REL"),
            DebugEventCategory::Overheard => owned("HEAR"),
            DebugEventCategory::System => owned("SYS"),
        }
    }

    /// The display color of the category, as (red, green, blue).
    pub fn color_rgb(&self) -> (r: (u8, u8, u8))
        ensures
            r == category_rgb(*self),
    {
        match self {
            DebugEventCategory::Movement => (100, 180, 255),
            DebugEventCategory::Schedule => (180, 180, 100),
            DebugEventCategory::Conversation => (100, 220, 100),
            DebugEventCategory::TierChange => (200, 140, 255),
            DebugEventCategory::MoodChange => (255, 180, 100),
            DebugEventCategory::Relationship => (255, 130, 130),
            DebugEventCategory::Overheard => (150, 200, 200),
            DebugEventCategory::System => (180, 180, 180),
        }
    }
}

/// A structured debug event with timestamp and category.
#[derive(Debug, Clone)]
pub struct DebugEvent {
    /// Game time formatted as HH:MM.
    pub timestamp: String,
    /// Event category for color-coding.
    pub category: DebugEventCategory,
    /// Human-readable event description.
    pub message: String,
}

/// Which tab is active in the debug panel.
#[derive(Debug, Clone, Copy, PartialEq, Eq, Structural)]
pub enum DebugTab {
    /// World overview: clock, weather, tiers, player location.
    World,
    /// Location browser with detail pane.
    Locations,
    /// NPC browser with detail pane.
    Npcs,
    /// Scrollable event log.
    Events,
    /// All NPC-to-NPC relationships.
    Relationships,
}

/// Persistent UI state of the debug panel.
#[derive(Debug)]
pub struct DebugUiState {
    /// Which tab is currently active.
    pub active_tab: DebugTab,
    /// Selected location for the detail view (Locations tab).
    pub selected_location: Option<LocationId>,
    /// Selected NPC for the detail view (NPCs tab).
    pub selected_npc: Option<NpcId>,
    /// Text filter for the NPC list.
    pub npc_filter: String,
    /// Text filter for the location list.
    pub location_filter: String,
    /// Whether the event log auto-scrolls to the bottom.
    pub event_log_auto_scroll: bool,
    /// Text filter for the relationships tab.
    pub relationship_filter: String,
}

impl Default for DebugUiState {
    fn default() -> (s: Self)
        ensures
            s.active_tab == DebugTab::World,
            s.selected_location is None,
            s.selected_npc is None,
            s.npc_filter@ == Seq::<char>::empty(),
            s.location_filter@ == Seq::<char>::empty(),
            s.event_log_auto_scroll,
            s.relationship_filter@ == Seq::<char>::empty(),
    {
        DebugUiState {
            active_tab: DebugTab::World,
            selected_location: None,
            selected_npc: None,
            npc_filter: String::new(),
            location_filter: String::new(),
            event_log_auto_scroll: true,
            relationship_filter: String::new(),
        }
    }
}

} // verus!
