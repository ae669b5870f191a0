//! The play session's reaction to a system command.
//!
//! `system_command_step` takes the session's state and one command, changes
//! the state, and answers with the lines to show, whether the inference
//! pipeline must be rebuilt, which client to build anew, and the work that
//! the caller performs outside the library (the save database, the game
//! clock, the debug inspections). The caller performs that work first,
//! logging what it reports, and then logs the outcome's lines.

use vstd::prelude::*;

use crate::categories::{opt_seq, CategorySettings, CategoryView};
use crate::commands::{
    api_key_line, category_model_line, category_provider_line, cloud_line, improv_toggle_message,
    key_displayable, key_line, sidebar_toggle_message, spec_category_model_line,
    spec_category_provider_line, spec_cloud_line, spec_improv_message, spec_sidebar_message,
    spec_status_line, spec_system_help_line, status_line, system_help, unknown_speed_message,
    SYSTEM_HELP_LINE_COUNT,
};
use crate::config::{
    parse_provider, spec_category_name, spec_default_base_url, spec_provider_display,
    InferenceCategory, Provider,
};
use crate::text::{concat2, concat3, owned};
use crate::world::{Season, TimeOfDay};

verus! {

/// The speeds the game clock can run at.
#[derive(Debug, Clone, Copy, PartialEq, Eq, Structural)]
pub enum GameSpeed {
    Slow,
    Normal,
    Fast,
    Fastest,
    Ludicrous,
}

/// A system command typed by the player.
#[derive(Debug)]
pub enum Command {
    Quit,
    Pause,
    Resume,
    ShowSpeed,
    SetSpeed(GameSpeed),
    InvalidSpeed(String),
    Status,
    Help,
    ToggleSidebar,
    ToggleImprov,
    ShowProvider,
    SetProvider(String),
    ShowModel,
    SetModel(String),
    ShowKey,
    SetKey(String),
    Save,
    Fork(String),
    Load(String),
    Branches,
    Log,
    Debug(Option<String>),
    ShowCloud,
    SetCloudProvider(String),
    ShowCloudModel,
    SetCloudModel(String),
    ShowCloudKey,
    SetCloudKey(String),
    ShowCategoryProvider(InferenceCategory),
    SetCategoryProvider(InferenceCategory, String),
    ShowCategoryModel(InferenceCategory),
    SetCategoryModel(InferenceCategory, String),
    ShowCategoryKey(InferenceCategory),
    SetCategoryKey(InferenceCategory, String),
}

/// What the session holds that the system commands read and change.
pub struct SessionState {
    /// Set once the player has asked to leave.
    pub should_quit: bool,
    /// Whether game time stands still (the clock follows this flag).
    pub paused: bool,
    /// Whether the pronunciation sidebar is shown.
    pub sidebar_visible: bool,
    /// Whether improv craft is on for NPC dialogue.
    pub improv_enabled: bool,
    /// Whether the debug panel is shown.
    pub debug_sidebar_visible: bool,
    /// Name of the base provider.
    pub provider_name: String,
    /// Base URL of the base provider.
    pub base_url: String,
    /// API key of the base provider.
    pub api_key: Option<String>,
    /// Base model name (empty: detected automatically).
    pub model_name: String,
    /// Per-category provider settings.
    pub categories: CategorySettings,
    /// Whether a save database is open.
    pub persistence: bool,
}

/// The session state as plain values.
pub struct SessionView {
    pub should_quit: bool,
    pub paused: bool,
    pub sidebar_visible: bool,
    pub improv_enabled: bool,
    pub debug_sidebar_visible: bool,
    pub provider_name: Seq<char>,
    pub base_url: Seq<char>,
    pub api_key: Option<Seq<char>>,
    pub model_name: Seq<char>,
    pub categories: CategoryView,
    pub persistence: bool,
}

impl View for SessionState {
    type V = SessionView;

    open spec fn view(&self) -> SessionView {
        SessionView {
            should_quit: self.should_quit,
            paused: self.paused,
            sidebar_visible: self.sidebar_visible,
            improv_enabled: self.improv_enabled,
            debug_sidebar_visible: self.debug_sidebar_visible,
            provider_name: self.provider_name@,
            base_url: self.base_url@,
            api_key: opt_seq(self.api_key),
            model_name: self.model_name@,
            categories: self.categories@,
            persistence: self.persistence,
        }
    }
}

/// Which inference client a command replaces.
#[derive(Debug, Clone, Copy, PartialEq, Eq, Structural)]
pub enum ClientSlot {
    /// The base client.
    Base,
    /// The cloud dialogue client.
    Cloud,
    /// The client of one category.
    Category(InferenceCategory),
}

/// A client to build anew: where it goes, its base URL and its API key.
#[derive(Debug)]
pub struct ClientRequest {
    pub slot: ClientSlot,
    pub base_url: String,
    pub api_key: Option<String>,
}

/// Work a command leaves to the caller: the save database, the game clock
/// and the debug inspections live outside the library.
#[derive(Debug)]
pub enum SessionEffect {
    /// Nothing to do.
    Nothing,
    /// Save a snapshot before leaving (log `Saved.` when it worked).
    SaveBeforeQuit,
    /// Save a snapshot of the active branch.
    Save,
    /// Fork a new branch with this name.
    Fork(String),
    /// Load the branch with this name.
    Load(String),
    /// List the save branches.
    ListBranches,
    /// Show the snapshot history of the active branch.
    ShowLog,
    /// Set the clock's speed and log its activation message.
    SetSpeed(GameSpeed),
    /// Run a debug inspection.
    Debug(Option<String>),
}

/// The answer to one command.
pub struct CommandOutcome {
    /// Lines to log, after those of the effect.
    pub lines: Vec<String>,
    /// Whether the inference pipeline must be rebuilt.
    pub rebuild_inference: bool,
    /// The client to build anew, if any.
    pub client: Option<ClientRequest>,
    /// Work left to the caller.
    pub effect: SessionEffect,
}

/// The views of a list of lines.
pub open spec fn lines_view(lines: Seq<String>) -> Seq<Seq<char>> {
    lines.map_values(|l: String| l@)
}

/// The line an error of the configuration shows.
pub open spec fn config_error_line(message: Seq<char>) -> Seq<char> {
    "config error: "@ + message
}

/// Whether a debug sub-command is `panel`.
pub open spec fn is_panel(sub: Option<String>) -> bool {
    match sub {
        Some(x) => x@ == "panel"@,
        None => false,
    }
}

/// The session after a command.
pub open spec fn spec_after_command(v: SessionView, cmd: Command) -> SessionView {
    match cmd {
        Command::Quit => SessionView { should_quit: true, ..v },
        Command::Pause => SessionView { paused: true, ..v },
        Command::Resume => SessionView { paused: false, ..v },
        Command::ToggleSidebar => SessionView { sidebar_visible: !v.sidebar_visible, ..v },
        Command::ToggleImprov => SessionView { improv_enabled: !v.improv_enabled, ..v },
        Command::SetProvider(name) => match parse_provider(name@) {
            Ok(p) => SessionView {
                base_url: spec_default_base_url(p),
                provider_name: spec_provider_display(p),
                ..v
            },
            Err(_) => v,
        },
        Command::SetModel(name) => SessionView { model_name: name@, ..v },
        Command::SetKey(key) => SessionView { api_key: Some(key@), ..v },
        Command::Debug(sub) => if is_panel(sub) {
            SessionView { debug_sidebar_visible: !v.debug_sidebar_visible, ..v }
        } else {
            v
        },
        Command::SetCloudProvider(name) => match parse_provider(name@) {
            Ok(p) => SessionView {
                categories: v.categories.with_provider_name(
                    InferenceCategory::Dialogue,
                    spec_provider_display(p),
                ).with_base_url(InferenceCategory::Dialogue, spec_default_base_url(p)),
                ..v
            },
            Err(_) => v,
        },
        Command::SetCloudModel(name) => SessionView {
            categories: v.categories.with_model(InferenceCategory::Dialogue, name@),
            ..v
        },
        Command::SetCloudKey(key) => SessionView {
            categories: v.categories.with_api_key(InferenceCategory::Dialogue, key@),
            ..v
        },
        Command::SetCategoryProvider(cat, name) => match parse_provider(name@) {
            Ok(p) => SessionView {
                categories: v.categories.with_provider_name(cat, spec_provider_display(p)).with_base_url(
                    cat,
                    spec_default_base_url(p),
                ),
                ..v
            },
            Err(_) => v,
        },
        Command::SetCategoryModel(cat, name) => SessionView {
            categories: v.categories.with_model(cat, name@),
            ..v
        },
        Command::SetCategoryKey(cat, key) => SessionView {
            categories: v.categories.with_api_key(cat, key@),
            ..v
        },
        _ => v,
    }
}

/// The line of a category that has its own provider, for `/provider`.
pub open spec fn provider_row(c: CategoryView, cat: InferenceCategory) -> Seq<Seq<char>> {
    match c.provider_name(cat) {
        Some(p) => seq!["  "@ + spec_category_name(cat) + ": "@ + p],
        None => Seq::empty(),
    }
}

/// The line of a category that has its own model, for `/model`.
pub open spec fn model_row(c: CategoryView, cat: InferenceCategory) -> Seq<Seq<char>> {
    if c.model(cat).len() == 0 {
        Seq::empty()
    } else {
        seq!["  "@ + spec_category_name(cat) + ": "@ + c.model(cat)]
    }
}

/// The lines of a parse of a provider name: the confirmation `changed`
/// followed by the provider's name, or the error.
pub open spec fn provider_change_lines(name: Seq<char>, changed: Seq<char>) -> Seq<Seq<char>> {
    match parse_provider(name) {
        Ok(p) => seq![changed + spec_provider_display(p) + "."@],
        Err(m) => seq![config_error_line(m)],
    }
}

/// The lines a command shows before the closing empty line, for every
/// command but the three that show an API key.
pub open spec fn spec_command_lines(
    v: SessionView,
    cmd: Command,
    location: Seq<char>,
    time: TimeOfDay,
    season: Season,
    speed_name: Seq<char>,
) -> Seq<Seq<char>> {
    let persistence_lines = if v.persistence {
        Seq::<Seq<char>>::empty()
    } else {
        seq!["Persistence not available."@]
    };
    match cmd {
        Command::Quit => seq!["Safe home to ye. May the road rise to meet you."@],
        Command::Pause => seq!["The clocks of the parish stand still."@],
        Command::Resume => seq!["Time stirs again in the parish."@],
        Command::ShowSpeed => seq!["The parish moves at "@ + speed_name + " pace."@],
        Command::SetSpeed(_) => Seq::empty(),
        Command::InvalidSpeed(name) => seq![
            "Unknown speed '"@ + name@ + "'. Try: slow, normal, fast, fastest, ludicrous."@,
        ],
        Command::Status => seq![spec_status_line(location, time, season, v.paused)],
        Command::Help => Seq::new(
            SYSTEM_HELP_LINE_COUNT as nat,
            |i: int| spec_system_help_line(i),
        ),
        Command::ToggleSidebar => seq![spec_sidebar_message(!v.sidebar_visible)],
        Command::ToggleImprov => seq![spec_improv_message(!v.improv_enabled)],
        Command::ShowProvider => seq!["Base: "@ + v.provider_name] + provider_row(
            v.categories,
            InferenceCategory::Dialogue,
        ) + provider_row(v.categories, InferenceCategory::Simulation) + provider_row(
            v.categories,
            InferenceCategory::Intent,
        ),
        Command::SetProvider(name) => provider_change_lines(name@, "Provider changed to "@),
        Command::ShowModel => seq![
            if v.model_name.len() == 0 {
                "Base model: (auto-detect)"@
            } else {
                "Base model: "@ + v.model_name
            },
        ] + model_row(v.categories, InferenceCategory::Dialogue) + model_row(
            v.categories,
            InferenceCategory::Simulation,
        ) + model_row(v.categories, InferenceCategory::Intent),
        Command::SetModel(name) => seq!["Model changed to "@ + name@ + "."@],
        Command::SetKey(_) => seq!["API key updated."@],
        Command::Save => persistence_lines,
        Command::Fork(_) => persistence_lines,
        Command::Load(_) => persistence_lines,
        Command::Branches => persistence_lines,
        Command::Log => persistence_lines,
        Command::Debug(sub) => if is_panel(sub) {
            if !v.debug_sidebar_visible {
                seq!["Debug panel visible."@]
            } else {
                seq!["Debug panel hidden."@]
            }
        } else {
            Seq::empty()
        },
        Command::ShowCloud => seq![
            spec_cloud_line(v.categories.cloud_provider_name, v.categories.cloud_model_name),
        ],
        Command::SetCloudProvider(name) => provider_change_lines(
            name@,
            "Cloud provider changed to "@,
        ),
        Command::ShowCloudModel => match v.categories.cloud_model_name {
            Some(m) => seq!["Cloud model: "@ + m],
            None => seq!["Cloud model: (not set)"@],
        },
        Command::SetCloudModel(name) => seq!["Cloud model changed to "@ + name@ + "."@],
        Command::SetCloudKey(_) => seq!["Cloud API key updated."@],
        Command::ShowCategoryProvider(cat) => seq![
            spec_category_provider_line(cat, v.categories.provider_name(cat), v.provider_name),
        ],
        Command::SetCategoryProvider(cat, name) => provider_change_lines(
            name@,
            spec_category_name(cat) + " provider changed to "@,
        ),
        Command::ShowCategoryModel(cat) => seq![
            spec_category_model_line(cat, v.categories.model(cat), v.model_name),
        ],
        Command::SetCategoryModel(cat, name) => seq![
            spec_category_name(cat) + " model changed to "@ + name@ + "."@,
        ],
        Command::SetCategoryKey(cat, _) => seq![spec_category_name(cat) + " API key updated."@],
        _ => Seq::empty(),
    }
}

/// The label and key of a command that shows an API key.
pub open spec fn shown_key(v: SessionView, cmd: Command) -> Option<(Seq<char>, Option<Seq<char>>)> {
    match cmd {
        Command::ShowKey => Some(("API key"@, v.api_key)),
        Command::ShowCloudKey => Some(("Cloud API key"@, v.categories.cloud_api_key)),
        Command::ShowCategoryKey(cat) => Some(
            (spec_category_name(cat) + " API key"@, v.categories.api_key(cat)),
        ),
        _ => None,
    }
}

/// Whether `lines` are the lines a command shows, the closing empty line
/// included. A key is shown masked (`key_line`).
pub open spec fn command_lines_match(
    lines: Seq<Seq<char>>,
    v: SessionView,
    cmd: Command,
    location: Seq<char>,
    time: TimeOfDay,
    season: Season,
    speed_name: Seq<char>,
) -> bool {
    match shown_key(v, cmd) {
        Some((label, key)) => lines.len() == 2 && key_line(label, key, lines[0]) && lines[1]
            == ""@,
        None => lines == spec_command_lines(v, cmd, location, time, season, speed_name).push(""@),
    }
}

/// Whether a command asks for the inference pipeline to be rebuilt.
pub open spec fn spec_rebuild(cmd: Command) -> bool {
    match cmd {
        Command::SetProvider(name) => parse_provider(name@) is Ok,
        Command::SetKey(_) => true,
        Command::SetCloudProvider(name) => parse_provider(name@) is Ok,
        Command::SetCloudKey(_) => true,
        Command::SetCategoryProvider(_, name) => parse_provider(name@) is Ok,
        Command::SetCategoryKey(_, _) => true,
        _ => false,
    }
}

/// Whether `r` asks for the client `slot` with base URL `url` and key
/// `key`.
pub open spec fn client_is(
    r: Option<ClientRequest>,
    slot: ClientSlot,
    url: Seq<char>,
    key: Option<Seq<char>>,
) -> bool {
    match r {
        Some(c) => c.slot == slot && c.base_url@ == url && opt_seq(c.api_key) == key,
        None => false,
    }
}

/// Whether `r` is the client a command builds anew (none for most).
pub open spec fn client_matches(r: Option<ClientRequest>, v: SessionView, cmd: Command) -> bool {
    match cmd {
        Command::SetProvider(name) => match parse_provider(name@) {
            Ok(p) => client_is(r, ClientSlot::Base, spec_default_base_url(p), v.api_key),
            Err(_) => r is None,
        },
        Command::SetKey(key) => client_is(r, ClientSlot::Base, v.base_url, Some(key@)),
        Command::SetCloudProvider(name) => match parse_provider(name@) {
            Ok(p) => client_is(
                r,
                ClientSlot::Cloud,
                spec_default_base_url(p),
                v.categories.cloud_api_key,
            ),
            Err(_) => r is None,
        },
        Command::SetCloudKey(key) => client_is(
            r,
            ClientSlot::Cloud,
            match v.categories.cloud_base_url {
                Some(u) => u,
                None => "https://openrouter.ai/api"@,
            },
            Some(key@),
        ),
        Command::SetCategoryProvider(cat, name) => match parse_provider(name@) {
            Ok(p) => client_is(
                r,
                ClientSlot::Category(cat),
                spec_default_base_url(p),
                v.categories.api_key(cat),
            ),
            Err(_) => r is None,
        },
        Command::SetCategoryKey(cat, key) => client_is(
            r,
            ClientSlot::Category(cat),
            match v.categories.base_url(cat) {
                Some(u) => u,
                None => v.base_url,
            },
            Some(key@),
        ),
        _ => r is None,
    }
}

/// Whether `e` is the work a command leaves to the caller.
pub open spec fn effect_matches(e: SessionEffect, v: SessionView, cmd: Command) -> bool {
    match cmd {
        Command::Quit => if v.persistence {
            e is SaveBeforeQuit
        } else {
            e is Nothing
        },
        Command::SetSpeed(speed) => e == SessionEffect::SetSpeed(speed),
        Command::Save => if v.persistence {
            e is Save
        } else {
            e is Nothing
        },
        Command::Fork(name) => if v.persistence {
            e matches SessionEffect::Fork(n) && n@ == name@
        } else {
            e is Nothing
        },
        Command::Load(name) => if v.persistence {
            e matches SessionEffect::Load(n) && n@ == name@
        } else {
            e is Nothing
        },
        Command::Branches => if v.persistence {
            e is ListBranches
        } else {
            e is Nothing
        },
        Command::Log => if v.persistence {
            e is ShowLog
        } else {
            e is Nothing
        },
        Command::Debug(sub) => if is_panel(sub) {
            e is Nothing
        } else {
            e matches SessionEffect::Debug(s) && opt_seq(s) == opt_seq(sub)
        },
        _ => e is Nothing,
    }
}

/// Whether a command can be answered in this state: a key that a command
/// shows must be displayable.
pub open spec fn command_ready(v: SessionView, cmd: Command) -> bool {
    match shown_key(v, cmd) {
        Some((_, key)) => key_displayable(key),
        None => true,
    }
}

/// Whether a command only shows something (or hands its work to the
/// caller) and leaves the session as it is.
pub open spec fn is_query(cmd: Command) -> bool {
    match cmd {
        Command::ShowSpeed | Command::SetSpeed(_) | Command::InvalidSpeed(_) | Command::Status
        | Command::Help | Command::ShowProvider | Command::ShowModel | Command::ShowKey
        | Command::Save | Command::Fork(_) | Command::Load(_) | Command::Branches | Command::Log
        | Command::ShowCloud | Command::ShowCloudModel | Command::ShowCloudKey
        | Command::ShowCategoryProvider(_) | Command::ShowCategoryModel(_)
        | Command::ShowCategoryKey(_) => true,
        _ => false,
    }
}

/// A command that only shows something changes nothing, asks for no
/// rebuild and builds no client.
pub proof fn law_queries_keep_session(v: SessionView, cmd: Command)
    requires
        is_query(cmd),
    ensures
        spec_after_command(v, cmd) == v,
        !spec_rebuild(cmd),
        client_matches(None, v, cmd),
{
}

/// Toggling the sidebar, improv craft or the debug panel twice gives the
/// session back.
pub proof fn law_toggle_twice(v: SessionView, cmd: Command)
    requires
        cmd is ToggleSidebar || cmd is ToggleImprov || (cmd matches Command::Debug(sub) && is_panel(
            sub,
        )),
    ensures
        spec_after_command(spec_after_command(v, cmd), cmd) == v,
{
}

/// A provider name that names no provider is answered with the error and
/// changes nothing: no state, no rebuild, no client.
pub proof fn law_refused_provider_changes_nothing(v: SessionView, cmd: Command, name: String)
    requires
        parse_provider(name@) is Err,
        cmd == Command::SetProvider(name) || cmd == Command::SetCloudProvider(name) || exists|
            cat: InferenceCategory,
        | cmd == Command::SetCategoryProvider(cat, name),
    ensures
        spec_after_command(v, cmd) == v,
        !spec_rebuild(cmd),
        client_matches(None, v, cmd),
        spec_command_lines(v, cmd, Seq::empty(), TimeOfDay::Dawn, Season::Spring, Seq::empty())
            == seq![config_error_line(parse_provider(name@)->Err_0)],
{
}

/// After `/model <name>` with a non-empty name, `/model` shows that name
/// as the base model.
pub proof fn law_model_read_back(v: SessionView, name: String)
    requires
        name@.len() > 0,
    ensures
        spec_command_lines(
            spec_after_command(v, Command::SetModel(name)),
            Command::ShowModel,
            Seq::empty(),
            TimeOfDay::Dawn,
            Season::Spring,
            Seq::empty(),
        )[0] == "Base model: "@ + name@,
{
}

/// After a category's model is set to a non-empty name, `/model
/// <category>` shows that name.
pub proof fn law_category_model_read_back(v: SessionView, cat: InferenceCategory, name: String)
    requires
        name@.len() > 0,
    ensures
        spec_command_lines(
            spec_after_command(v, Command::SetCategoryModel(cat, name)),
            Command::ShowCategoryModel(cat),
            Seq::empty(),
            TimeOfDay::Dawn,
            Season::Spring,
            Seq::empty(),
        ) == seq![spec_category_name(cat) + " model: "@ + name@],
{
}

/// After `/provider <name>` with a name of a provider, `/provider` shows
/// that provider's display name as the base, and the base URL is the
/// provider's default.
pub proof fn law_provider_read_back(v: SessionView, name: String)
    requires
        parse_provider(name@) is Ok,
    ensures
        spec_after_command(v, Command::SetProvider(name)).base_url == spec_default_base_url(
            parse_provider(name@)->Ok_0,
        ),
        spec_command_lines(
            spec_after_command(v, Command::SetProvider(name)),
            Command::ShowProvider,
            Seq::empty(),
            TimeOfDay::Dawn,
            Season::Spring,
            Seq::empty(),
        )[0] == "Base: "@ + spec_provider_display(parse_provider(name@)->Ok_0),
{
}

/// After a key is set, the key-showing command shows that key (masked
/// when longer than eight bytes).
pub proof fn law_key_read_back(v: SessionView, key: String, cat: InferenceCategory)
    ensures
        shown_key(spec_after_command(v, Command::SetKey(key)), Command::ShowKey) == Some(
            ("API key"@, Some(key@)),
        ),
        shown_key(spec_after_command(v, Command::SetCloudKey(key)), Command::ShowCloudKey)
            == Some(("Cloud API key"@, Some(key@))),
        shown_key(
            spec_after_command(v, Command::SetCategoryKey(cat, key)),
            Command::ShowCategoryKey(cat),
        ) == Some((spec_category_name(cat) + " API key"@, Some(key@))),
{
}

/// Law: after a category's provider is set to a provider `p`, setting that
/// category's key builds the category's client at `p`'s default base URL
/// with the new key; the same holds for the cloud provider and its key.
pub proof fn law_key_goes_to_category_url(
    v: SessionView,
    cat: InferenceCategory,
    name: String,
    key: String,
    r: Option<ClientRequest>,
    c: Option<ClientRequest>,
)
    requires
        parse_provider(name@) is Ok,
        client_matches(
            r,
            spec_after_command(v, Command::SetCategoryProvider(cat, name)),
            Command::SetCategoryKey(cat, key),
        ),
        client_matches(
            c,
            spec_after_command(v, Command::SetCloudProvider(name)),
            Command::SetCloudKey(key),
        ),
    ensures
        r matches Some(q) && q.slot == ClientSlot::Category(cat) && q.base_url@
            == spec_default_base_url(parse_provider(name@)->Ok_0) && opt_seq(q.api_key) == Some(
            key@,
        ),
        c matches Some(q) && q.slot == ClientSlot::Cloud && q.base_url@ == spec_default_base_url(
            parse_provider(name@)->Ok_0,
        ) && opt_seq(q.api_key) == Some(key@),
{
}

/// Law: setting a category's key builds its client at the category's own
/// base URL when it has one, and at the base provider's URL only when it
/// has none.
pub proof fn law_category_key_url(
    v: SessionView,
    cat: InferenceCategory,
    key: String,
    r: Option<ClientRequest>,
)
    requires
        client_matches(r, v, Command::SetCategoryKey(cat, key)),
    ensures
        r matches Some(q) && q.slot == ClientSlot::Category(cat) && opt_seq(q.api_key) == Some(
            key@,
        ),
        v.categories.base_url(cat) matches Some(u) ==> r->0.base_url@ == u,
        v.categories.base_url(cat) is None ==> r->0.base_url@ == v.base_url,
{
}

/// Appends one line.
fn push_line(lines: &mut Vec<String>, line: String)
    ensures
        lines_view(final(lines)@) == lines_view(old(lines)@).push(line@),
{
    let ghost l = line@;
    lines.push(line);
    proof {
        assert(lines_view(lines@) =~= lines_view(old(lines)@).push(l));
    }
}

/// A copy of an optional string.
fn copy_opt(o: Option<&str>) -> (r: Option<String>)
    ensures
        opt_seq(r) == crate::categories::opt_str(o),
{
    match o {
        Some(x) => Some(owned(x)),
        None => None,
    }
}

/// The lower-cased variant name of a provider.
fn provider_label(p: Provider) -> (r: String)
    ensures
        r@ == spec_provider_display(p),
{
    match p {
        Provider::Ollama => owned("ollama"),
        Provider::LmStudio => owned("lmstudio"),
        Provider::OpenRouter => owned("openrouter"),
        Provider::Custom => owned("custom"),
    }
}

/// Parses a provider name and logs the outcome: `changed` and the
/// provider's name, or the error.
fn parse_change(name: &str, changed: &str, lines: &mut Vec<String>) -> (r: Option<Provider>)
    ensures
        match parse_provider(name@) {
            Ok(p) => r == Some(p),
            Err(_) => r is None,
        },
        lines_view(final(lines)@) == lines_view(old(lines)@) + provider_change_lines(
            name@,
            changed@,
        ),
{
    match Provider::from_str_loose(name) {
        Ok(p) => {
            let label = provider_label(p);
            push_line(lines, concat3(changed, label.as_str(), "."));
            Some(p)
        },
        Err(e) => {
            push_line(lines, concat2("config error: ", e.as_str()));
            None
        },
    }
}

/// Appends the `/provider` line of a category that has its own provider.
fn push_provider_row(lines: &mut Vec<String>, c: &CategorySettings, cat: InferenceCategory)
    ensures
        lines_view(final(lines)@) == lines_view(old(lines)@) + provider_row(c@, cat),
{
    match c.category_provider_name(cat) {
        Some(p) => {
            let mut l = concat3("  ", cat.name(), ": ");
            l.append(p);
            push_line(lines, l);
        },
        None => {
            assert(lines_view(lines@) =~= lines_view(lines@) + Seq::<Seq<char>>::empty());
        },
    }
}

/// Appends the `/model` line of a category that has its own model.
fn push_model_row(lines: &mut Vec<String>, c: &CategorySettings, cat: InferenceCategory)
    ensures
        lines_view(final(lines)@) == lines_view(old(lines)@) + model_row(c@, cat),
{
    let m = c.category_model(cat);
    if m.is_empty() {
        assert(lines_view(lines@) =~= lines_view(lines@) + Seq::<Seq<char>>::empty());
    } else {
        let mut l = concat3("  ", cat.name(), ": ");
        l.append(m);
        push_line(lines, l);
    }
}

/// The groups of system commands, each answered by a function of its own.
#[derive(Debug, Clone, Copy, PartialEq, Eq, Structural)]
pub enum CommandGroup {
    Basic,
    Base,
    Saves,
    Cloud,
    Category,
}

/// The group a command belongs to.
pub open spec fn spec_group(cmd: Command) -> CommandGroup {
    match cmd {
        Command::Quit | Command::Pause | Command::Resume | Command::ShowSpeed | Command::SetSpeed(..) | Command::InvalidSpeed(..) | Command::Status | Command::Help | Command::ToggleSidebar | Command::ToggleImprov => CommandGroup::Basic,
        Command::ShowProvider | Command::SetProvider(..) | Command::ShowModel | Command::SetModel(..) | Command::ShowKey | Command::SetKey(..) => CommandGroup::Base,
        Command::Save | Command::Fork(..) | Command::Load(..) | Command::Branches | Command::Log | Command::Debug(..) => CommandGroup::Saves,
        Command::ShowCloud | Command::SetCloudProvider(..) | Command::ShowCloudModel | Command::SetCloudModel(..) | Command::ShowCloudKey | Command::SetCloudKey(..) => CommandGroup::Cloud,
        Command::ShowCategoryProvider(..) | Command::SetCategoryProvider(..) | Command::ShowCategoryModel(..) | Command::SetCategoryModel(..) | Command::ShowCategoryKey(..) | Command::SetCategoryKey(..) => CommandGroup::Category,
    }
}

/// The group of a command.
fn command_group(cmd: &Command) -> (g: CommandGroup)
    ensures
        g == spec_group(*cmd),
{
    match cmd {
        Command::Quit | Command::Pause | Command::Resume | Command::ShowSpeed | Command::SetSpeed(..) | Command::InvalidSpeed(..) | Command::Status | Command::Help | Command::ToggleSidebar | Command::ToggleImprov => CommandGroup::Basic,
        Command::ShowProvider | Command::SetProvider(..) | Command::ShowModel | Command::SetModel(..) | Command::ShowKey | Command::SetKey(..) => CommandGroup::Base,
        Command::Save | Command::Fork(..) | Command::Load(..) | Command::Branches | Command::Log | Command::Debug(..) => CommandGroup::Saves,
        Command::ShowCloud | Command::SetCloudProvider(..) | Command::ShowCloudModel | Command::SetCloudModel(..) | Command::ShowCloudKey | Command::SetCloudKey(..) => CommandGroup::Cloud,
        Command::ShowCategoryProvider(..) | Command::SetCategoryProvider(..) | Command::ShowCategoryModel(..) | Command::SetCategoryModel(..) | Command::ShowCategoryKey(..) | Command::SetCategoryKey(..) => CommandGroup::Category,
    }
}

/// Answers the commands on time, speed, status, help and the two toggles.
fn step_basic(
    s: &mut SessionState,
    cmd: Command,
    location: &str,
    time: TimeOfDay,
    season: Season,
    speed_name: &str,
) -> (r: CommandOutcome)
    requires
        command_ready(old(s)@, cmd),
        spec_group(cmd) == CommandGroup::Basic,
    ensures
        final(s)@ == spec_after_command(old(s)@, cmd),
        command_lines_match(
            lines_view(r.lines@),
            old(s)@,
            cmd,
            location@,
            time,
            season,
            speed_name@,
        ),
        r.rebuild_inference == spec_rebuild(cmd),
        client_matches(r.client, old(s)@, cmd),
        effect_matches(r.effect, old(s)@, cmd),
{
    let mut lines: Vec<String> = Vec::new();
    let mut rebuild = false;
    let mut client: Option<ClientRequest> = None;
    let mut effect = SessionEffect::Nothing;
    proof {
        assert(lines_view(lines@) =~= Seq::<Seq<char>>::empty());
    }
    match cmd {
        Command::Quit => {
            if s.persistence {
                effect = SessionEffect::SaveBeforeQuit;
            }
            push_line(&mut lines, owned("Safe home to ye. May the road rise to meet you."));
            s.should_quit = true;
        },
        Command::Pause => {
            s.paused = true;
            push_line(&mut lines, owned("The clocks of the parish stand still."));
        },
        Command::Resume => {
            s.paused = false;
            push_line(&mut lines, owned("Time stirs again in the parish."));
        },
        Command::ShowSpeed => {
            push_line(&mut lines, concat3("The parish moves at ", speed_name, " pace."));
        },
        Command::SetSpeed(speed) => {
            effect = SessionEffect::SetSpeed(speed);
        },
        Command::InvalidSpeed(name) => {
            push_line(&mut lines, unknown_speed_message(name.as_str()));
        },
        Command::Status => {
            push_line(&mut lines, status_line(location, time, season, s.paused));
        },
        Command::Help => {
            lines = system_help();
            proof {
                assert(lines_view(lines@) =~= Seq::new(
                    SYSTEM_HELP_LINE_COUNT as nat,
                    |i: int| spec_system_help_line(i),
                ));
            }
        },
        Command::ToggleSidebar => {
            s.sidebar_visible = !s.sidebar_visible;
            push_line(&mut lines, owned(sidebar_toggle_message(s.sidebar_visible)));
        },
        Command::ToggleImprov => {
            s.improv_enabled = !s.improv_enabled;
            push_line(&mut lines, owned(improv_toggle_message(s.improv_enabled)));
        },
        _ => {},
    }
    push_line(&mut lines, owned(""));
    CommandOutcome { lines, rebuild_inference: rebuild, client, effect }
}

/// Answers the commands on the base provider, model and key.
fn step_base(
    s: &mut SessionState,
    cmd: Command,
    location: &str,
    time: TimeOfDay,
    season: Season,
    speed_name: &str,
) -> (r: CommandOutcome)
    requires
        command_ready(old(s)@, cmd),
        spec_group(cmd) == CommandGroup::Base,
    ensures
        final(s)@ == spec_after_command(old(s)@, cmd),
        command_lines_match(
            lines_view(r.lines@),
            old(s)@,
            cmd,
            location@,
            time,
            season,
            speed_name@,
        ),
        r.rebuild_inference == spec_rebuild(cmd),
        client_matches(r.client, old(s)@, cmd),
        effect_matches(r.effect, old(s)@, cmd),
{
    let mut lines: Vec<String> = Vec::new();
    let mut rebuild = false;
    let mut client: Option<ClientRequest> = None;
    let mut effect = SessionEffect::Nothing;
    proof {
        assert(lines_view(lines@) =~= Seq::<Seq<char>>::empty());
    }
    match cmd {
        Command::ShowProvider => {
            push_line(&mut lines, concat2("Base: ", s.provider_name.as_str()));
            push_provider_row(&mut lines, &s.categories, InferenceCategory::Dialogue);
            push_provider_row(&mut lines, &s.categories, InferenceCategory::Simulation);
            push_provider_row(&mut lines, &s.categories, InferenceCategory::Intent);
        },
        Command::SetProvider(name) => {
            if let Some(p) = parse_change(name.as_str(), "Provider changed to ", &mut lines) {
                s.base_url = owned(p.default_base_url());
                s.provider_name = provider_label(p);
                client = Some(
                    ClientRequest {
                        slot: ClientSlot::Base,
                        base_url: owned(s.base_url.as_str()),
                        api_key: copy_opt(
                            match &s.api_key {
                                Some(k) => Some(k.as_str()),
                                None => None,
                            },
                        ),
                    },
                );
                rebuild = true;
            }
        },
        Command::ShowModel => {
            if s.model_name.as_str().is_empty() {
                push_line(&mut lines, owned("Base model: (auto-detect)"));
            } else {
                push_line(&mut lines, concat2("Base model: ", s.model_name.as_str()));
            }
            push_model_row(&mut lines, &s.categories, InferenceCategory::Dialogue);
            push_model_row(&mut lines, &s.categories, InferenceCategory::Simulation);
            push_model_row(&mut lines, &s.categories, InferenceCategory::Intent);
        },
        Command::SetModel(name) => {
            push_line(&mut lines, concat3("Model changed to ", name.as_str(), "."));
            s.model_name = name;
        },
        Command::ShowKey => {
            let key = match &s.api_key {
                Some(k) => Some(k.as_str()),
                None => None,
            };
            push_line(&mut lines, api_key_line("API key", key));
        },
        Command::SetKey(value) => {
            client = Some(
                ClientRequest {
                    slot: ClientSlot::Base,
                    base_url: owned(s.base_url.as_str()),
                    api_key: Some(owned(value.as_str())),
                },
            );
            s.api_key = Some(value);
            rebuild = true;
            push_line(&mut lines, owned("API key updated."));
        },
        _ => {},
    }
    push_line(&mut lines, owned(""));
    CommandOutcome { lines, rebuild_inference: rebuild, client, effect }
}

/// Answers the commands on saves, branches and debugging.
fn step_saves(
    s: &mut SessionState,
    cmd: Command,
    location: &str,
    time: TimeOfDay,
    season: Season,
    speed_name: &str,
) -> (r: CommandOutcome)
    requires
        command_ready(old(s)@, cmd),
        spec_group(cmd) == CommandGroup::Saves,
    ensures
        final(s)@ == spec_after_command(old(s)@, cmd),
        command_lines_match(
            lines_view(r.lines@),
            old(s)@,
            cmd,
            location@,
            time,
            season,
            speed_name@,
        ),
        r.rebuild_inference == spec_rebuild(cmd),
        client_matches(r.client, old(s)@, cmd),
        effect_matches(r.effect, old(s)@, cmd),
{
    let mut lines: Vec<String> = Vec::new();
    let mut rebuild = false;
    let mut client: Option<ClientRequest> = None;
    let mut effect = SessionEffect::Nothing;
    proof {
        assert(lines_view(lines@) =~= Seq::<Seq<char>>::empty());
    }
    match cmd {
        Command::Save => {
            if s.persistence {
                effect = SessionEffect::Save;
            } else {
                push_line(&mut lines, owned("Persistence not available."));
            }
        },
        Command::Fork(name) => {
            if s.persistence {
                effect = SessionEffect::Fork(name);
            } else {
                push_line(&mut lines, owned("Persistence not available."));
            }
        },
        Command::Load(name) => {
            if s.persistence {
                effect = SessionEffect::Load(name);
            } else {
                push_line(&mut lines, owned("Persistence not available."));
            }
        },
        Command::Branches => {
            if s.persistence {
                effect = SessionEffect::ListBranches;
            } else {
                push_line(&mut lines, owned("Persistence not available."));
            }
        },
        Command::Log => {
            if s.persistence {
                effect = SessionEffect::ShowLog;
            } else {
                push_line(&mut lines, owned("Persistence not available."));
            }
        },
        Command::Debug(sub) => {
            let panel_word = owned("panel");
            let panel = match &sub {
                Some(x) => *x == panel_word,
                None => false,
            };
            if panel {
                s.debug_sidebar_visible = !s.debug_sidebar_visible;
                if s.debug_sidebar_visible {
                    push_line(&mut lines, owned("Debug panel visible."));
                } else {
                    push_line(&mut lines, owned("Debug panel hidden."));
                }
            } else {
                effect = SessionEffect::Debug(sub);
            }
        },
        _ => {},
    }
    push_line(&mut lines, owned(""));
    CommandOutcome { lines, rebuild_inference: rebuild, client, effect }
}

/// Answers the commands on the cloud dialogue provider.
fn step_cloud(
    s: &mut SessionState,
    cmd: Command,
    location: &str,
    time: TimeOfDay,
    season: Season,
    speed_name: &str,
) -> (r: CommandOutcome)
    requires
        command_ready(old(s)@, cmd),
        spec_group(cmd) == CommandGroup::Cloud,
    ensures
        final(s)@ == spec_after_command(old(s)@, cmd),
        command_lines_match(
            lines_view(r.lines@),
            old(s)@,
            cmd,
            location@,
            time,
            season,
            speed_name@,
        ),
        r.rebuild_inference == spec_rebuild(cmd),
        client_matches(r.client, old(s)@, cmd),
        effect_matches(r.effect, old(s)@, cmd),
{
    let mut lines: Vec<String> = Vec::new();
    let mut rebuild = false;
    let mut client: Option<ClientRequest> = None;
    let mut effect = SessionEffect::Nothing;
    proof {
        assert(lines_view(lines@) =~= Seq::<Seq<char>>::empty());
    }
    match cmd {
        Command::ShowCloud => {
            let provider = s.categories.category_provider_name(InferenceCategory::Dialogue);
            let model = match &s.categories.cloud_model_name {
                Some(m) => Some(m.as_str()),
                None => None,
            };
            push_line(&mut lines, cloud_line(provider, model));
        },
        Command::SetCloudProvider(name) => {
            if let Some(p) = parse_change(name.as_str(), "Cloud provider changed to ", &mut lines) {
                let key = copy_opt(s.categories.category_api_key(InferenceCategory::Dialogue));
                s.categories.set_category_provider_name(
                    InferenceCategory::Dialogue,
                    provider_label(p),
                );
                s.categories.set_category_base_url(
                    InferenceCategory::Dialogue,
                    owned(p.default_base_url()),
                );
                client = Some(
                    ClientRequest {
                        slot: ClientSlot::Cloud,
                        base_url: owned(p.default_base_url()),
                        api_key: key,
                    },
                );
                rebuild = true;
            }
        },
        Command::ShowCloudModel => {
            match &s.categories.cloud_model_name {
                Some(m) => push_line(&mut lines, concat2("Cloud model: ", m.as_str())),
                None => push_line(&mut lines, owned("Cloud model: (not set)")),
            }
        },
        Command::SetCloudModel(name) => {
            push_line(&mut lines, concat3("Cloud model changed to ", name.as_str(), "."));
            s.categories.set_category_model(InferenceCategory::Dialogue, name);
        },
        Command::ShowCloudKey => {
            let key = s.categories.category_api_key(InferenceCategory::Dialogue);
            push_line(&mut lines, api_key_line("Cloud API key", key));
        },
        Command::SetCloudKey(value) => {
            let url = match s.categories.category_base_url(InferenceCategory::Dialogue) {
                Some(u) => owned(u),
                None => owned("https://openrouter.ai/api"),
            };
            client = Some(
                ClientRequest {
                    slot: ClientSlot::Cloud,
                    base_url: url,
                    api_key: Some(owned(value.as_str())),
                },
            );
            s.categories.set_category_api_key(InferenceCategory::Dialogue, value);
            rebuild = true;
            push_line(&mut lines, owned("Cloud API key updated."));
        },
        _ => {},
    }
    push_line(&mut lines, owned(""));
    CommandOutcome { lines, rebuild_inference: rebuild, client, effect }
}

/// Answers the commands on the per-category providers.
fn step_category(
    s: &mut SessionState,
    cmd: Command,
    location: &str,
    time: TimeOfDay,
    season: Season,
    speed_name: &str,
) -> (r: CommandOutcome)
    requires
        command_ready(old(s)@, cmd),
        spec_group(cmd) == CommandGroup::Category,
    ensures
        final(s)@ == spec_after_command(old(s)@, cmd),
        command_lines_match(
            lines_view(r.lines@),
            old(s)@,
            cmd,
            location@,
            time,
            season,
            speed_name@,
        ),
        r.rebuild_inference == spec_rebuild(cmd),
        client_matches(r.client, old(s)@, cmd),
        effect_matches(r.effect, old(s)@, cmd),
{
    let mut lines: Vec<String> = Vec::new();
    let mut rebuild = false;
    let mut client: Option<ClientRequest> = None;
    let mut effect = SessionEffect::Nothing;
    proof {
        assert(lines_view(lines@) =~= Seq::<Seq<char>>::empty());
    }
    match cmd {
        Command::ShowCategoryProvider(cat) => {
            let provider = s.categories.category_provider_name(cat);
            push_line(
                &mut lines,
                category_provider_line(cat, provider, s.provider_name.as_str()),
            );
        },
        Command::SetCategoryProvider(cat, name) => {
            let changed = concat2(cat.name(), " provider changed to ");
            if let Some(p) = parse_change(name.as_str(), changed.as_str(), &mut lines) {
                let key = copy_opt(s.categories.category_api_key(cat));
                s.categories.set_category_provider_name(cat, provider_label(p));
                s.categories.set_category_base_url(cat, owned(p.default_base_url()));
                client = Some(
                    ClientRequest {
                        slot: ClientSlot::Category(cat),
                        base_url: owned(p.default_base_url()),
                        api_key: key,
                    },
                );
                rebuild = true;
            }
        },
        Command::ShowCategoryModel(cat) => {
            let model = s.categories.category_model(cat);
            push_line(&mut lines, category_model_line(cat, model, s.model_name.as_str()));
        },
        Command::SetCategoryModel(cat, name) => {
            let mut l = concat3(cat.name(), " model changed to ", name.as_str());
            l.append(".");
            push_line(&mut lines, l);
            s.categories.set_category_model(cat, name);
        },
        Command::ShowCategoryKey(cat) => {
            let label = concat2(cat.name(), " API key");
            let key = s.categories.category_api_key(cat);
            push_line(&mut lines, api_key_line(label.as_str(), key));
        },
        Command::SetCategoryKey(cat, value) => {
            let url = match s.categories.category_base_url(cat) {
                Some(u) => owned(u),
                None => owned(s.base_url.as_str()),
            };
            client = Some(
                ClientRequest {
                    slot: ClientSlot::Category(cat),
                    base_url: url,
                    api_key: Some(owned(value.as_str())),
                },
            );
            s.categories.set_category_api_key(cat, value);
            rebuild = true;
            push_line(&mut lines, concat2(cat.name(), " API key updated."));
        },
        _ => {},
    }
    push_line(&mut lines, owned(""));
    CommandOutcome { lines, rebuild_inference: rebuild, client, effect }
}

/// Answers a system command: changes the session as the command asks and
/// returns the lines to show (closed by an empty line), whether the
/// inference pipeline must be rebuilt, the client to build anew and the
/// work left to the caller. `location`, `time`, `season` and `speed_name`
/// are what the world and its clock report.
pub fn system_command_step(
    s: &mut SessionState,
    cmd: Command,
    location: &str,
    time: TimeOfDay,
    season: Season,
    speed_name: &str,
) -> (r: CommandOutcome)
    requires
        command_ready(old(s)@, cmd),
    ensures
        final(s)@ == spec_after_command(old(s)@, cmd),
        command_lines_match(
            lines_view(r.lines@),
            old(s)@,
            cmd,
            location@,
            time,
            season,
            speed_name@,
        ),
        r.rebuild_inference == spec_rebuild(cmd),
        client_matches(r.client, old(s)@, cmd),
        effect_matches(r.effect, old(s)@, cmd),
{
    match command_group(&cmd) {
        CommandGroup::Basic => step_basic(s, cmd, location, time, season, speed_name),
        CommandGroup::Base => step_base(s, cmd, location, time, season, speed_name),
        CommandGroup::Saves => step_saves(s, cmd, location, time, season, speed_name),
        CommandGroup::Cloud => step_cloud(s, cmd, location, time, season, speed_name),
        CommandGroup::Category => step_category(s, cmd, location, time, season, speed_name),
    }
}

} // verus!
