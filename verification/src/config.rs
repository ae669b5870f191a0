//! Provider configuration for LLM inference backends.
//!
//! Configuration is layered: hard-coded provider defaults, then the TOML
//! file, then environment variables, then CLI flags (later layers win).
//! Reading the file and the environment is the caller's business; the
//! functions here take the values that were read and resolve them.

use vstd::prelude::*;

use crate::error::ParishError;
use crate::text::{
    all_ascii, ascii_lower, ascii_upper, concat2, concat3, lowercase, owned, to_lowercase,
};

verus! {

/// Supported LLM provider backends.
#[derive(Debug, Clone, Copy, PartialEq, Eq, Structural)]
pub enum Provider {
    /// Local Ollama server with auto-management (default).
    Ollama,
    /// Local LM Studio server.
    LmStudio,
    /// OpenRouter cloud gateway (requires API key).
    OpenRouter,
    /// Any OpenAI-compatible endpoint (requires base_url).
    Custom,
}

/// The provider a lower-cased name denotes, if any.
pub open spec fn provider_named(lower: Seq<char>) -> Option<Provider> {
    if lower == "ollama"@ {
        Some(Provider::Ollama)
    } else if lower == "lmstudio"@ || lower == "lm_studio"@ || lower == "lm-studio"@ {
        Some(Provider::LmStudio)
    } else if lower == "openrouter"@ || lower == "open_router"@ || lower == "open-router"@ {
        Some(Provider::OpenRouter)
    } else if lower == "custom"@ {
        Some(Provider::Custom)
    } else {
        None
    }
}

/// Message for a provider name that names no provider.
pub open spec fn unknown_provider_message(lower: Seq<char>) -> Seq<char> {
    "unknown provider '"@ + lower + "'. Expected: ollama, lmstudio, openrouter, custom"@
}

/// The parse of a name that was already lower-cased.
pub open spec fn parse_lowered(lower: Seq<char>) -> Result<Provider, Seq<char>> {
    match provider_named(lower) {
        Some(p) => Ok(p),
        None => Err(unknown_provider_message(lower)),
    }
}

/// What `Provider::from_str_loose` gives for a name.
pub open spec fn parse_provider(name: Seq<char>) -> Result<Provider, Seq<char>> {
    parse_lowered(lowercase(name))
}

/// Whether a parse result carries the outcome `parsed` (an error as a
/// configuration error with that message).
pub open spec fn parse_outcome(r: Result<Provider, ParishError>, parsed: Result<Provider, Seq<char>>) -> bool {
    match r {
        Ok(p) => parsed == Ok::<Provider, Seq<char>>(p),
        Err(e) => e is Config && parsed == Err::<Provider, Seq<char>>(e.message()),
    }
}

/// Default base URL of each provider.
pub open spec fn spec_default_base_url(p: Provider) -> Seq<char> {
    match p {
        Provider::Ollama => "http://localhost:11434"@,
        Provider::LmStudio => "http://localhost:1234"@,
        Provider::OpenRouter => "https://openrouter.ai/api"@,
        Provider::Custom => ""@,
    }
}

/// The variant name of a provider, as `{:?}` prints it.
pub open spec fn spec_debug_name(p: Provider) -> Seq<char> {
    match p {
        Provider::Ollama => "Ollama"@,
        Provider::LmStudio => "LmStudio"@,
        Provider::OpenRouter => "OpenRouter"@,
        Provider::Custom => "Custom"@,
    }
}

impl Provider {
    /// Parses a provider name, ignoring case (Unicode lower-casing).
    pub fn from_str_loose(s: &str) -> (r: Result<Provider, ParishError>)
        ensures
            parse_outcome(r, parse_provider(s@)),
    {
        let lower = to_lowercase(s);
        if lower == owned("ollama") {
            Ok(Provider::Ollama)
        } else if lower == owned("lmstudio") || lower == owned("lm_studio") || lower == owned(
            "lm-studio",
        ) {
            Ok(Provider::LmStudio)
        } else if lower == owned("openrouter") || lower == owned("open_router") || lower == owned(
            "open-router",
        ) {
            Ok(Provider::OpenRouter)
        } else if lower == owned("custom") {
            Ok(Provider::Custom)
        } else {
            Err(
                ParishError::Config(
                    concat3(
                        "unknown provider '",
                        lower.as_str(),
                        "'. Expected: ollama, lmstudio, openrouter, custom",
                    ),
                ),
            )
        }
    }

    /// Returns the default base URL for this provider.
    pub fn default_base_url(&self) -> (r: &'static str)
        ensures
            r@ == spec_default_base_url(*self),
    {
        match self {
            Provider::Ollama => "http://localhost:11434",
            Provider::LmStudio => "http://localhost:1234",
            Provider::OpenRouter => "https://openrouter.ai/api",
            Provider::Custom => "",
        }
    }

    /// Whether this provider requires an API key (only OpenRouter does).
    pub fn requires_api_key(&self) -> (r: bool)
        ensures
            r == (*self == Provider::OpenRouter),
    {
        matches!(self, Provider::OpenRouter)
    }

    /// Whether this provider requires an explicit model name (all but Ollama).
    pub fn requires_model(&self) -> (r: bool)
        ensures
            r == (*self != Provider::Ollama),
    {
        !matches!(self, Provider::Ollama)
    }

    /// The variant name, as `{:?}` prints it.
    pub fn debug_name(&self) -> (r: &'static str)
        ensures
            r@ == spec_debug_name(*self),
    {
        match self {
            Provider::Ollama => "Ollama",
            Provider::LmStudio => "LmStudio",
            Provider::OpenRouter => "OpenRouter",
            Provider::Custom => "Custom",
        }
    }
}

impl Default for Provider {
    fn default() -> (p: Self)
        ensures
            p == Provider::Ollama,
    {
        Provider::Ollama
    }
}


/// Inference categories that can each have their own provider configuration.
#[derive(Debug, Clone, Copy, PartialEq, Eq, Structural)]
pub enum InferenceCategory {
    /// Player-facing NPC dialogue (Tier 1, streaming).
    Dialogue,
    /// Background NPC simulation (Tier 2, JSON).
    Simulation,
    /// Player input intent parsing (JSON, low-latency).
    Intent,
}

/// Lower-case category name used in TOML keys and CLI flags.
pub open spec fn spec_category_name(c: InferenceCategory) -> Seq<char> {
    match c {
        InferenceCategory::Dialogue => "dialogue"@,
        InferenceCategory::Simulation => "simulation"@,
        InferenceCategory::Intent => "intent"@,
    }
}

/// Environment variable prefix of a category.
pub open spec fn spec_env_prefix(c: InferenceCategory) -> Seq<char> {
    match c {
        InferenceCategory::Dialogue => "PARISH_DIALOGUE"@,
        InferenceCategory::Simulation => "PARISH_SIMULATION"@,
        InferenceCategory::Intent => "PARISH_INTENT"@,
    }
}

impl InferenceCategory {
    /// All defined inference categories, in resolution order.
    pub fn all() -> (r: [InferenceCategory; 3])
        ensures
            r@ == seq![
                InferenceCategory::Dialogue,
                InferenceCategory::Simulation,
                InferenceCategory::Intent,
            ],
    {
        [InferenceCategory::Dialogue, InferenceCategory::Simulation, InferenceCategory::Intent]
    }

    /// Returns the lower-case name used in TOML keys, env vars and CLI flags.
    pub fn name(&self) -> (r: &'static str)
        ensures
            r@ == spec_category_name(*self),
    {
        match self {
            InferenceCategory::Dialogue => "dialogue",
            InferenceCategory::Simulation => "simulation",
            InferenceCategory::Intent => "intent",
        }
    }

    /// Returns the SCREAMING_CASE prefix used in environment variables.
    pub fn env_prefix(&self) -> (r: &'static str)
        ensures
            r@ == spec_env_prefix(*self),
    {
        match self {
            InferenceCategory::Dialogue => "PARISH_DIALOGUE",
            InferenceCategory::Simulation => "PARISH_SIMULATION",
            InferenceCategory::Intent => "PARISH_INTENT",
        }
    }
}

/// Resolved provider configuration for a single inference category.
#[derive(Debug, Clone)]
pub struct CategoryConfig {
    /// The provider backend for this category.
    pub provider: Provider,
    /// Base URL for the provider API.
    pub base_url: String,
    /// API key for authenticated providers.
    pub api_key: Option<String>,
    /// Model name. `None` for Ollama (auto-selected).
    pub model: Option<String>,
}

/// Resolved provider configuration ready for use.
#[derive(Debug, Clone)]
pub struct ProviderConfig {
    /// The selected provider backend.
    pub provider: Provider,
    /// Base URL for the provider API.
    pub base_url: String,
    /// API key for authenticated providers.
    pub api_key: Option<String>,
    /// Model name override. Required for non-Ollama providers.
    pub model: Option<String>,
}

impl ProviderConfig {
    /// Display name of the provider: its variant name in lower case.
    pub fn provider_display(&self) -> (r: String)
        ensures
            r@ == spec_provider_display(self.provider),
    {
        match self.provider {
            Provider::Ollama => owned("ollama"),
            Provider::LmStudio => owned("lmstudio"),
            Provider::OpenRouter => owned("openrouter"),
            Provider::Custom => owned("custom"),
        }
    }
}

/// The lower-cased variant name of a provider.
pub open spec fn spec_provider_display(p: Provider) -> Seq<char> {
    match p {
        Provider::Ollama => "ollama"@,
        Provider::LmStudio => "lmstudio"@,
        Provider::OpenRouter => "openrouter"@,
        Provider::Custom => "custom"@,
    }
}

/// A provider's display name parses back to that provider, and so does the
/// display name written in upper case.
pub proof fn law_display_parses_back(p: Provider)
    ensures
        parse_provider(spec_provider_display(p)) == Ok::<Provider, Seq<char>>(p),
        parse_provider(ascii_upper(spec_provider_display(p))) == Ok::<Provider, Seq<char>>(p),
{
    reveal_strlit("ollama");
    reveal_strlit("lmstudio");
    reveal_strlit("lm_studio");
    reveal_strlit("lm-studio");
    reveal_strlit("openrouter");
    reveal_strlit("open_router");
    reveal_strlit("open-router");
    reveal_strlit("custom");
    let d = spec_provider_display(p);
    assert(all_ascii(d));
    assert(all_ascii(ascii_upper(d)));
    assert(ascii_lower(d) =~= d);
    assert(ascii_lower(ascii_upper(d)) =~= d);
    assert(parse_lowered(d) == Ok::<Provider, Seq<char>>(p)) by {
        match p {
            Provider::Ollama => {},
            Provider::LmStudio => {
                assert(d.len() != "ollama"@.len());
            },
            Provider::OpenRouter => {
                assert(d.len() != "ollama"@.len());
                assert(d.len() != "lmstudio"@.len());
                assert(d.len() != "lm_studio"@.len());
                assert(d.len() != "lm-studio"@.len());
            },
            Provider::Custom => {
                assert(d[0] != "ollama"@[0]);
                assert(d.len() != "lmstudio"@.len());
                assert(d.len() != "lm_studio"@.len());
                assert(d.len() != "lm-studio"@.len());
                assert(d.len() != "openrouter"@.len());
                assert(d.len() != "open_router"@.len());
                assert(d.len() != "open-router"@.len());
            },
        }
    }
}

/// Resolved cloud provider configuration for player-facing dialogue.
#[derive(Debug, Clone)]
pub struct CloudConfig {
    /// The cloud provider backend (typically OpenRouter).
    pub provider: Provider,
    /// Base URL for the cloud API.
    pub base_url: String,
    /// API key for the cloud provider.
    pub api_key: Option<String>,
    /// Model name (required for cloud providers).
    pub model: String,
}

/// CLI-provided overrides for cloud provider configuration.
#[derive(Debug, Default)]
pub struct CliCloudOverrides {
    /// `--cloud-provider` flag value.
    pub provider: Option<String>,
    /// `--cloud-base-url` flag value.
    pub base_url: Option<String>,
    /// `--cloud-api-key` flag value.
    pub api_key: Option<String>,
    /// `--cloud-model` flag value.
    pub model: Option<String>,
}

/// CLI-provided overrides for provider configuration.
#[derive(Debug, Default)]
pub struct CliOverrides {
    /// `--provider` flag value.
    pub provider: Option<String>,
    /// `--base-url` flag value.
    pub base_url: Option<String>,
    /// `--api-key` flag value.
    pub api_key: Option<String>,
    /// `--model` flag value.
    pub model: Option<String>,
}

/// CLI-provided overrides for per-category provider configuration.
#[derive(Debug, Default)]
pub struct CliCategoryOverrides {
    /// `--dialogue-*` flags.
    pub dialogue: Option<CliOverrides>,
    /// `--simulation-*` flags.
    pub simulation: Option<CliOverrides>,
    /// `--intent-*` flags.
    pub intent: Option<CliOverrides>,
}

impl CliCategoryOverrides {
    /// The CLI overrides given for a category, if any.
    pub fn get(&self, cat: InferenceCategory) -> (r: &Option<CliOverrides>)
        ensures
            *r == self.spec_get(cat),
    {
        match cat {
            InferenceCategory::Dialogue => &self.dialogue,
            InferenceCategory::Simulation => &self.simulation,
            InferenceCategory::Intent => &self.intent,
        }
    }

    /// The CLI overrides given for a category, if any.
    pub open spec fn spec_get(self, cat: InferenceCategory) -> Option<CliOverrides> {
        match cat {
            InferenceCategory::Dialogue => self.dialogue,
            InferenceCategory::Simulation => self.simulation,
            InferenceCategory::Intent => self.intent,
        }
    }
}

/// Whether any of the four flags was given.
pub open spec fn any_flag_set(o: CliOverrides) -> bool {
    o.provider is Some || o.base_url is Some || o.api_key is Some || o.model is Some
}

/// The flags given for a category, or `None` when none was.
pub open spec fn kept_if_set(o: CliOverrides) -> Option<CliOverrides> {
    if any_flag_set(o) {
        Some(o)
    } else {
        None
    }
}

fn keep_if_set(o: CliOverrides) -> (r: Option<CliOverrides>)
    ensures
        r == kept_if_set(o),
{
    if o.provider.is_some() || o.base_url.is_some() || o.api_key.is_some() || o.model.is_some() {
        Some(o)
    } else {
        None
    }
}

/// Gathers the per-category command-line flags: a category is overridden
/// only when at least one of its flags was given.
pub fn build_cli_category_overrides(
    dialogue: CliOverrides,
    simulation: CliOverrides,
    intent: CliOverrides,
) -> (r: CliCategoryOverrides)
    ensures
        r.dialogue == kept_if_set(dialogue),
        r.simulation == kept_if_set(simulation),
        r.intent == kept_if_set(intent),
{
    CliCategoryOverrides {
        dialogue: keep_if_set(dialogue),
        simulation: keep_if_set(simulation),
        intent: keep_if_set(intent),
    }
}

/// Per-category provider override from TOML (e.g. `[provider.dialogue]`).
#[derive(Debug, Default, Clone)]
pub struct TomlCategoryOverride {
    /// Provider name override for this category.
    pub name: Option<String>,
    /// Base URL override for this category.
    pub base_url: Option<String>,
    /// API key override for this category.
    pub api_key: Option<String>,
    /// Model name override for this category.
    pub model: Option<String>,
}

/// The `[provider]` section of the TOML config.
#[derive(Debug, Default)]
pub struct TomlProvider {
    /// Provider name.
    pub name: Option<String>,
    /// Base URL override.
    pub base_url: Option<String>,
    /// API key for cloud providers.
    pub api_key: Option<String>,
    /// Model name override.
    pub model: Option<String>,
    /// `[provider.dialogue]`.
    pub dialogue: Option<TomlCategoryOverride>,
    /// `[provider.simulation]`.
    pub simulation: Option<TomlCategoryOverride>,
    /// `[provider.intent]`.
    pub intent: Option<TomlCategoryOverride>,
}

/// The `[cloud]` section of the TOML config.
#[derive(Debug, Default)]
pub struct TomlCloud {
    /// Provider name.
    pub name: Option<String>,
    /// Base URL override.
    pub base_url: Option<String>,
    /// API key for the cloud provider.
    pub api_key: Option<String>,
    /// Model name.
    pub model: Option<String>,
}

/// The TOML configuration file (`parish.toml`), as parsed.
#[derive(Debug, Default)]
pub struct TomlConfig {
    /// `[provider]` section.
    pub provider: TomlProvider,
    /// `[cloud]` section.
    pub cloud: TomlCloud,
}

/// Four provider-related environment variables of one group, as read
/// (`None` when unset; possibly empty).
#[derive(Debug, Default, Clone)]
pub struct EnvGroup {
    /// `<PREFIX>_PROVIDER`.
    pub provider: Option<String>,
    /// `<PREFIX>_BASE_URL`.
    pub base_url: Option<String>,
    /// `<PREFIX>_API_KEY`.
    pub api_key: Option<String>,
    /// `<PREFIX>_MODEL`.
    pub model: Option<String>,
}

/// The environment variables the configuration reads, as read.
#[derive(Debug, Default)]
pub struct EnvVars {
    /// `PARISH_PROVIDER`, `PARISH_BASE_URL`, `PARISH_API_KEY`, `PARISH_MODEL`.
    pub base: EnvGroup,
    /// Deprecated `PARISH_OLLAMA_URL`.
    pub ollama_url: Option<String>,
    /// `PARISH_CLOUD_*`.
    pub cloud: EnvGroup,
    /// `PARISH_DIALOGUE_*`.
    pub dialogue: EnvGroup,
    /// `PARISH_SIMULATION_*`.
    pub simulation: EnvGroup,
    /// `PARISH_INTENT_*`.
    pub intent: EnvGroup,
}

impl EnvVars {
    /// The variables of a category's group.
    pub open spec fn spec_group(self, cat: InferenceCategory) -> EnvGroup {
        match cat {
            InferenceCategory::Dialogue => self.dialogue,
            InferenceCategory::Simulation => self.simulation,
            InferenceCategory::Intent => self.intent,
        }
    }

    fn group(&self, cat: InferenceCategory) -> (r: &EnvGroup)
        ensures
            *r == self.spec_group(cat),
    {
        match cat {
            InferenceCategory::Dialogue => &self.dialogue,
            InferenceCategory::Simulation => &self.simulation,
            InferenceCategory::Intent => &self.intent,
        }
    }
}

/// The view of an optional string.
pub open spec fn ov(o: Option<String>) -> Option<Seq<char>> {
    match o {
        Some(s) => Some(s@),
        None => None,
    }
}

/// An environment variable's value counts only when set and non-empty.
pub open spec fn env_val(o: Option<String>) -> Option<Seq<char>> {
    match o {
        Some(s) => if s@.len() > 0 {
            Some(s@)
        } else {
            None
        },
        None => None,
    }
}

/// Layering: a set higher layer replaces the lower one.
pub open spec fn over(lower: Option<Seq<char>>, higher: Option<Seq<char>>) -> Option<Seq<char>> {
    if higher is Some {
        higher
    } else {
        lower
    }
}

/// Drops an empty value.
pub open spec fn non_empty(o: Option<Seq<char>>) -> Option<Seq<char>> {
    match o {
        Some(s) => if s.len() > 0 {
            Some(s)
        } else {
            None
        },
        None => None,
    }
}

fn copy_opt(o: &Option<String>) -> (r: Option<String>)
    ensures
        ov(r) == ov(*o),
{
    match o {
        Some(s) => Some(s.clone()),
        None => None,
    }
}

fn env_opt(o: &Option<String>) -> (r: Option<String>)
    ensures
        ov(r) == env_val(*o),
{
    match o {
        Some(s) => if s.as_str().is_empty() {
            None
        } else {
            Some(s.clone())
        },
        None => None,
    }
}

fn layer(cur: Option<String>, higher: Option<String>) -> (r: Option<String>)
    ensures
        ov(r) == over(ov(cur), ov(higher)),
{
    if higher.is_some() {
        higher
    } else {
        cur
    }
}

fn drop_empty(o: Option<String>) -> (r: Option<String>)
    ensures
        ov(r) == non_empty(ov(o)),
{
    match o {
        Some(s) => if s.as_str().is_empty() {
            None
        } else {
            Some(s)
        },
        None => None,
    }
}

/// The provider a layered name selects, with `default` when no layer names one.
pub open spec fn choose_provider(name: Option<Seq<char>>, default: Provider) -> Result<
    Provider,
    Seq<char>,
> {
    match name {
        Some(n) => parse_provider(n),
        None => Ok(default),
    }
}

fn provider_or(name: &Option<String>, default: Provider) -> (r: Result<Provider, ParishError>)
    ensures
        match r {
            Ok(p) => choose_provider(ov(*name), default) == Ok::<Provider, Seq<char>>(p),
            Err(e) => e is Config && choose_provider(ov(*name), default) == Err::<
                Provider,
                Seq<char>,
            >(e.message()),
        },
{
    match name {
        Some(s) => Provider::from_str_loose(s.as_str()),
        None => Ok(default),
    }
}

/// A base URL, or the provider's default when none is set.
pub open spec fn url_or_default(url: Option<Seq<char>>, p: Provider) -> Seq<char> {
    match url {
        Some(u) => u,
        None => spec_default_base_url(p),
    }
}

fn base_url_or_default(url: Option<String>, p: Provider) -> (r: String)
    ensures
        r@ == url_or_default(ov(url), p),
{
    match url {
        Some(u) => u,
        None => owned(p.default_base_url()),
    }
}

/// The resolved base-config values before validation:
/// (provider name, base URL, API key, model).
pub open spec fn base_layers(toml: TomlConfig, env: EnvVars, cli: CliOverrides) -> (
    Option<Seq<char>>,
    Option<Seq<char>>,
    Option<Seq<char>>,
    Option<Seq<char>>,
) {
    let url_env = over(ov(toml.provider.base_url), env_val(env.base.base_url));
    let url_legacy = if url_env is None {
        env_val(env.ollama_url)
    } else {
        url_env
    };
    (
        over(over(ov(toml.provider.name), env_val(env.base.provider)), ov(cli.provider)),
        over(url_legacy, ov(cli.base_url)),
        over(over(ov(toml.provider.api_key), env_val(env.base.api_key)), ov(cli.api_key)),
        over(over(ov(toml.provider.model), env_val(env.base.model)), ov(cli.model)),
    )
}

/// Message for a provider that needs a key and has none.
pub open spec fn missing_key_message(p: Provider) -> Seq<char> {
    spec_debug_name(p) + " provider requires an API key. Set PARISH_API_KEY or --api-key."@
}

/// What `resolve_config` resolves to: the configuration
/// (provider, base URL, API key, model) or the error message.
pub open spec fn spec_resolve_config(toml: TomlConfig, env: EnvVars, cli: CliOverrides) -> Result<
    (Provider, Seq<char>, Option<Seq<char>>, Option<Seq<char>>),
    Seq<char>,
> {
    let (name, url, key, model) = base_layers(toml, env, cli);
    match choose_provider(name, Provider::Ollama) {
        Err(m) => Err(m),
        Ok(p) => {
            let base_url = url_or_default(url, p);
            let api_key = non_empty(key);
            let model = non_empty(model);
            if p == Provider::OpenRouter && api_key is None {
                Err(missing_key_message(p))
            } else if p == Provider::Custom && base_url.len() == 0 {
                Err(
                    "Custom provider requires a base_url. Set PARISH_BASE_URL or --base-url."@,
                )
            } else {
                Ok((p, base_url, api_key, model))
            }
        },
    }
}

/// Resolves the base provider configuration from the TOML file's values,
/// the environment and the CLI flags (later layers win).
///
/// The provider name defaults to Ollama; the base URL to the provider's
/// default (`PARISH_OLLAMA_URL` fills in when no base URL came from the
/// file or `PARISH_BASE_URL`); empty keys and models are dropped.
pub fn resolve_config(toml: &TomlConfig, env: &EnvVars, cli: &CliOverrides) -> (r: Result<
    ProviderConfig,
    ParishError,
>)
    ensures
        match r {
            Ok(c) => spec_resolve_config(*toml, *env, *cli) == Ok::<
                (Provider, Seq<char>, Option<Seq<char>>, Option<Seq<char>>),
                Seq<char>,
            >((c.provider, c.base_url@, ov(c.api_key), ov(c.model))),
            Err(e) => e is Config && spec_resolve_config(*toml, *env, *cli) == Err::<
                (Provider, Seq<char>, Option<Seq<char>>, Option<Seq<char>>),
                Seq<char>,
            >(e.message()),
        },
{
    let mut provider_str = copy_opt(&toml.provider.name);
    let mut base_url = copy_opt(&toml.provider.base_url);
    let mut api_key = copy_opt(&toml.provider.api_key);
    let mut model = copy_opt(&toml.provider.model);

    provider_str = layer(provider_str, env_opt(&env.base.provider));
    base_url = layer(base_url, env_opt(&env.base.base_url));
    if base_url.is_none() {
        base_url = env_opt(&env.ollama_url);
    }
    api_key = layer(api_key, env_opt(&env.base.api_key));
    model = layer(model, env_opt(&env.base.model));

    provider_str = layer(provider_str, copy_opt(&cli.provider));
    base_url = layer(base_url, copy_opt(&cli.base_url));
    api_key = layer(api_key, copy_opt(&cli.api_key));
    model = layer(model, copy_opt(&cli.model));

    let provider = match provider_or(&provider_str, Provider::Ollama) {
        Ok(p) => p,
        Err(e) => return Err(e),
    };
    let base_url = base_url_or_default(base_url, provider);
    let api_key = drop_empty(api_key);
    let model = drop_empty(model);

    if provider.requires_api_key() && api_key.is_none() {
        return Err(
            ParishError::Config(
                concat2(
                    provider.debug_name(),
                    " provider requires an API key. Set PARISH_API_KEY or --api-key.",
                ),
            ),
        );
    }
    if provider == Provider::Custom && base_url.as_str().is_empty() {
        return Err(
            ParishError::Config(
                owned("Custom provider requires a base_url. Set PARISH_BASE_URL or --base-url."),
            ),
        );
    }
    Ok(ProviderConfig { provider, base_url, api_key, model })
}

/// Message when a cloud configuration names no model.
pub open spec fn cloud_missing_model_message() -> Seq<char> {
    "Cloud provider requires a model name. Set PARISH_CLOUD_MODEL or --cloud-model."@
}

/// What `resolve_cloud_config` resolves to: `None` when no cloud setting
/// is present anywhere, the configuration (provider, base URL, API key,
/// model), or the error message.
pub open spec fn spec_resolve_cloud_config(
    toml: TomlConfig,
    env: EnvVars,
    cli: CliCloudOverrides,
) -> Result<Option<(Provider, Seq<char>, Option<Seq<char>>, Seq<char>)>, Seq<char>> {
    let name = over(over(ov(toml.cloud.name), env_val(env.cloud.provider)), ov(cli.provider));
    let url = over(over(ov(toml.cloud.base_url), env_val(env.cloud.base_url)), ov(cli.base_url));
    let key = non_empty(
        over(over(ov(toml.cloud.api_key), env_val(env.cloud.api_key)), ov(cli.api_key)),
    );
    let model = non_empty(
        over(over(ov(toml.cloud.model), env_val(env.cloud.model)), ov(cli.model)),
    );
    if name is None && url is None && key is None && model is None {
        Ok(None)
    } else {
        match choose_provider(name, Provider::OpenRouter) {
            Err(m) => Err(m),
            Ok(p) => {
                let base_url = url_or_default(url, p);
                match model {
                    None => Err(cloud_missing_model_message()),
                    Some(m) => if p == Provider::OpenRouter && key is None {
                        Err(
                            "Cloud "@ + spec_debug_name(p)
                                + " provider requires an API key. Set PARISH_CLOUD_API_KEY or --cloud-api-key."@,
                        )
                    } else if p == Provider::Custom && base_url.len() == 0 {
                        Err(
                            "Cloud custom provider requires a base_url. Set PARISH_CLOUD_BASE_URL or --cloud-base-url."@,
                        )
                    } else {
                        Ok(Some((p, base_url, key, m)))
                    },
                }
            },
        }
    }
}

/// Resolves the cloud dialogue provider from the TOML `[cloud]` values,
/// `PARISH_CLOUD_*` variables and `--cloud-*` flags.
///
/// Returns `Ok(None)` when nothing is configured; the provider defaults
/// to OpenRouter and a model name is required.
pub fn resolve_cloud_config(toml: &TomlConfig, env: &EnvVars, cli: &CliCloudOverrides) -> (r:
    Result<Option<CloudConfig>, ParishError>)
    ensures
        match r {
            Ok(None) => spec_resolve_cloud_config(*toml, *env, *cli) == Ok::<
                Option<(Provider, Seq<char>, Option<Seq<char>>, Seq<char>)>,
                Seq<char>,
            >(None),
            Ok(Some(c)) => spec_resolve_cloud_config(*toml, *env, *cli) == Ok::<
                Option<(Provider, Seq<char>, Option<Seq<char>>, Seq<char>)>,
                Seq<char>,
            >(Some((c.provider, c.base_url@, ov(c.api_key), c.model@))),
            Err(e) => e is Config && spec_resolve_cloud_config(*toml, *env, *cli) == Err::<
                Option<(Provider, Seq<char>, Option<Seq<char>>, Seq<char>)>,
                Seq<char>,
            >(e.message()),
        },
{
    let mut provider_str = copy_opt(&toml.cloud.name);
    let mut base_url = copy_opt(&toml.cloud.base_url);
    let mut api_key = copy_opt(&toml.cloud.api_key);
    let mut model = copy_opt(&toml.cloud.model);

    provider_str = layer(provider_str, env_opt(&env.cloud.provider));
    base_url = layer(base_url, env_opt(&env.cloud.base_url));
    api_key = layer(api_key, env_opt(&env.cloud.api_key));
    model = layer(model, env_opt(&env.cloud.model));

    provider_str = layer(provider_str, copy_opt(&cli.provider));
    base_url = layer(base_url, copy_opt(&cli.base_url));
    api_key = layer(api_key, copy_opt(&cli.api_key));
    model = layer(model, copy_opt(&cli.model));

    let api_key = drop_empty(api_key);
    let model = drop_empty(model);

    if provider_str.is_none() && base_url.is_none() && api_key.is_none() && model.is_none() {
        return Ok(None);
    }
    let provider = match provider_or(&provider_str, Provider::OpenRouter) {
        Ok(p) => p,
        Err(e) => return Err(e),
    };
    let base_url = base_url_or_default(base_url, provider);
    let model = match model {
        Some(m) => m,
        None => {
            return Err(
                ParishError::Config(
                    owned(
                        "Cloud provider requires a model name. Set PARISH_CLOUD_MODEL or --cloud-model.",
                    ),
                ),
            );
        },
    };
    if provider.requires_api_key() && api_key.is_none() {
        return Err(
            ParishError::Config(
                concat3(
                    "Cloud ",
                    provider.debug_name(),
                    " provider requires an API key. Set PARISH_CLOUD_API_KEY or --cloud-api-key.",
                ),
            ),
        );
    }
    if provider == Provider::Custom && base_url.as_str().is_empty() {
        return Err(
            ParishError::Config(
                owned(
                    "Cloud custom provider requires a base_url. Set PARISH_CLOUD_BASE_URL or --cloud-base-url.",
                ),
            ),
        );
    }
    Ok(Some(CloudConfig { provider, base_url, api_key, model }))
}

/// The four layered values of one configuration layer:
/// (provider name, base URL, API key, model).
pub type LayerView = (Option<Seq<char>>, Option<Seq<char>>, Option<Seq<char>>, Option<Seq<char>>);

/// A higher layer over a lower one, field by field.
pub open spec fn over4(lower: LayerView, higher: LayerView) -> LayerView {
    (
        over(lower.0, higher.0),
        over(lower.1, higher.1),
        over(lower.2, higher.2),
        over(lower.3, higher.3),
    )
}

/// The values a TOML category override sets.
pub open spec fn toml_override_layer(o: Option<TomlCategoryOverride>) -> LayerView {
    match o {
        Some(t) => (ov(t.name), ov(t.base_url), ov(t.api_key), ov(t.model)),
        None => (None, None, None, None),
    }
}

/// The values a set of CLI flags sets.
pub open spec fn cli_layer(o: Option<CliOverrides>) -> LayerView {
    match o {
        Some(c) => (ov(c.provider), ov(c.base_url), ov(c.api_key), ov(c.model)),
        None => (None, None, None, None),
    }
}

/// The values a group of environment variables sets (non-empty only).
pub open spec fn env_layer(g: EnvGroup) -> LayerView {
    (env_val(g.provider), env_val(g.base_url), env_val(g.api_key), env_val(g.model))
}

/// Whether any of the four values is set.
pub open spec fn layer_set(l: LayerView) -> bool {
    l.0 is Some || l.1 is Some || l.2 is Some || l.3 is Some
}

/// The TOML override section of a category.
pub open spec fn toml_override_of(toml: TomlConfig, c: InferenceCategory) -> Option<
    TomlCategoryOverride,
> {
    match c {
        InferenceCategory::Dialogue => toml.provider.dialogue,
        InferenceCategory::Simulation => toml.provider.simulation,
        InferenceCategory::Intent => toml.provider.intent,
    }
}

/// The legacy cloud layers (TOML `[cloud]`, then `PARISH_CLOUD_*`, then `--cloud-*`).
pub open spec fn legacy_cloud_layers(toml: TomlConfig, env: EnvVars, cli_cloud: CliCloudOverrides) -> (
    LayerView,
    LayerView,
    LayerView,
) {
    (
        (ov(toml.cloud.name), ov(toml.cloud.base_url), ov(toml.cloud.api_key), ov(toml.cloud.model)),
        env_layer(env.cloud),
        (ov(cli_cloud.provider), ov(cli_cloud.base_url), ov(cli_cloud.api_key), ov(cli_cloud.model)),
    )
}

/// Message for a category whose provider needs a key and has none.
pub open spec fn category_missing_key_message(c: InferenceCategory, p: Provider) -> Seq<char> {
    spec_category_name(c) + " "@ + spec_debug_name(p) + " provider requires an API key. Set "@
        + spec_env_prefix(c) + "_API_KEY or --"@ + spec_category_name(c) + "-api-key."@
}

/// Message for a custom category provider without a base URL.
pub open spec fn category_missing_url_message(c: InferenceCategory) -> Seq<char> {
    spec_category_name(c) + " custom provider requires a base_url. Set "@ + spec_env_prefix(c)
        + "_BASE_URL or --"@ + spec_category_name(c) + "-base-url."@
}

/// What one category resolves to: `None` when nothing overrides it, its
/// configuration (provider, base URL, API key, model), or the error message.
pub open spec fn spec_resolve_category(
    toml: TomlConfig,
    env: EnvVars,
    base: ProviderConfig,
    cli: CliCategoryOverrides,
    cli_cloud: CliCloudOverrides,
    c: InferenceCategory,
) -> Result<Option<(Provider, Seq<char>, Option<Seq<char>>, Option<Seq<char>>)>, Seq<char>> {
    let t = toml_override_layer(toml_override_of(toml, c));
    let e = env_layer(env.spec_group(c));
    let k = cli_layer(cli.spec_get(c));
    let (lt, le, lc) = legacy_cloud_layers(toml, env, cli_cloud);
    let legacy = c == InferenceCategory::Dialogue && (layer_set(lt) || layer_set(le) || layer_set(
        lc,
    ));
    if !layer_set(t) && !layer_set(e) && !layer_set(k) && !legacy {
        Ok(None)
    } else {
        let start: LayerView = (None, None, ov(base.api_key), ov(base.model));
        let after_legacy = if c == InferenceCategory::Dialogue {
            over4(over4(over4(start, lt), le), lc)
        } else {
            start
        };
        let (name, url, key, model) = over4(over4(over4(after_legacy, t), e), k);
        match choose_provider(name, base.provider) {
            Err(m) => Err(m),
            Ok(p) => {
                let resolved_url = match url {
                    Some(u) if u.len() > 0 => u,
                    _ => if name is Some {
                        spec_default_base_url(p)
                    } else {
                        base.base_url@
                    },
                };
                let key = non_empty(key);
                let model = non_empty(model);
                if p == Provider::OpenRouter && key is None {
                    Err(category_missing_key_message(c, p))
                } else if p == Provider::Custom && resolved_url.len() == 0 {
                    Err(category_missing_url_message(c))
                } else {
                    Ok(Some((p, resolved_url, key, model)))
                }
            },
        }
    }
}

/// The view of an optional category configuration.
pub open spec fn category_view(o: Option<CategoryConfig>) -> Option<
    (Provider, Seq<char>, Option<Seq<char>>, Option<Seq<char>>),
> {
    match o {
        Some(c) => Some((c.provider, c.base_url@, ov(c.api_key), ov(c.model))),
        None => None,
    }
}

/// Per-category configurations; a category without overrides is `None`
/// and falls back to the base configuration.
#[derive(Debug, Clone)]
pub struct CategoryConfigs {
    /// Dialogue configuration.
    pub dialogue: Option<CategoryConfig>,
    /// Simulation configuration.
    pub simulation: Option<CategoryConfig>,
    /// Intent configuration.
    pub intent: Option<CategoryConfig>,
}

impl CategoryConfigs {
    /// The configuration of a category, if it has one.
    pub open spec fn spec_get(self, c: InferenceCategory) -> Option<CategoryConfig> {
        match c {
            InferenceCategory::Dialogue => self.dialogue,
            InferenceCategory::Simulation => self.simulation,
            InferenceCategory::Intent => self.intent,
        }
    }

    /// The configuration of a category, if it has one.
    pub fn get(&self, c: InferenceCategory) -> (r: &Option<CategoryConfig>)
        ensures
            *r == self.spec_get(c),
    {
        match c {
            InferenceCategory::Dialogue => &self.dialogue,
            InferenceCategory::Simulation => &self.simulation,
            InferenceCategory::Intent => &self.intent,
        }
    }

    /// Number of categories that have their own configuration.
    pub fn len(&self) -> (r: usize)
        ensures
            r == (if self.dialogue is Some { 1int } else { 0int }) + (if self.simulation is Some {
                1int
            } else {
                0int
            }) + (if self.intent is Some { 1int } else { 0int }),
    {
        let mut n: usize = 0;
        if self.dialogue.is_some() {
            n = n + 1;
        }
        if self.simulation.is_some() {
            n = n + 1;
        }
        if self.intent.is_some() {
            n = n + 1;
        }
        n
    }
}

struct Layer {
    provider: Option<String>,
    base_url: Option<String>,
    api_key: Option<String>,
    model: Option<String>,
}

impl Layer {
    spec fn view4(self) -> LayerView {
        (ov(self.provider), ov(self.base_url), ov(self.api_key), ov(self.model))
    }

    fn over(self, higher: Layer) -> (r: Layer)
        ensures
            r.view4() == over4(self.view4(), higher.view4()),
    {
        Layer {
            provider: layer(self.provider, higher.provider),
            base_url: layer(self.base_url, higher.base_url),
            api_key: layer(self.api_key, higher.api_key),
            model: layer(self.model, higher.model),
        }
    }

    fn is_set(&self) -> (r: bool)
        ensures
            r == layer_set(self.view4()),
    {
        self.provider.is_some() || self.base_url.is_some() || self.api_key.is_some()
            || self.model.is_some()
    }

    fn of_env(g: &EnvGroup) -> (r: Layer)
        ensures
            r.view4() == env_layer(*g),
    {
        Layer {
            provider: env_opt(&g.provider),
            base_url: env_opt(&g.base_url),
            api_key: env_opt(&g.api_key),
            model: env_opt(&g.model),
        }
    }

    fn of_cli(o: &Option<CliOverrides>) -> (r: Layer)
        ensures
            r.view4() == cli_layer(*o),
    {
        match o {
            Some(c) => Layer {
                provider: copy_opt(&c.provider),
                base_url: copy_opt(&c.base_url),
                api_key: copy_opt(&c.api_key),
                model: copy_opt(&c.model),
            },
            None => Layer { provider: None, base_url: None, api_key: None, model: None },
        }
    }

    fn of_toml_override(o: &Option<TomlCategoryOverride>) -> (r: Layer)
        ensures
            r.view4() == toml_override_layer(*o),
    {
        match o {
            Some(t) => Layer {
                provider: copy_opt(&t.name),
                base_url: copy_opt(&t.base_url),
                api_key: copy_opt(&t.api_key),
                model: copy_opt(&t.model),
            },
            None => Layer { provider: None, base_url: None, api_key: None, model: None },
        }
    }
}

fn toml_override_for(toml: &TomlConfig, c: InferenceCategory) -> (r: &Option<TomlCategoryOverride>)
    ensures
        *r == toml_override_of(*toml, c),
{
    match c {
        InferenceCategory::Dialogue => &toml.provider.dialogue,
        InferenceCategory::Simulation => &toml.provider.simulation,
        InferenceCategory::Intent => &toml.provider.intent,
    }
}

fn category_key_message(c: InferenceCategory, p: Provider) -> (r: String)
    ensures
        r@ == category_missing_key_message(c, p),
{
    let mut m = owned(c.name());
    m.append(" ");
    m.append(p.debug_name());
    m.append(" provider requires an API key. Set ");
    m.append(c.env_prefix());
    m.append("_API_KEY or --");
    m.append(c.name());
    m.append("-api-key.");
    m
}

fn category_url_message(c: InferenceCategory) -> (r: String)
    ensures
        r@ == category_missing_url_message(c),
{
    let mut m = owned(c.name());
    m.append(" custom provider requires a base_url. Set ");
    m.append(c.env_prefix());
    m.append("_BASE_URL or --");
    m.append(c.name());
    m.append("-base-url.");
    m
}

/// Resolves the configuration of one inference category (see
/// [`resolve_category_configs`]).
pub fn resolve_category(
    toml: &TomlConfig,
    env: &EnvVars,
    base: &ProviderConfig,
    cli: &CliCategoryOverrides,
    cli_cloud: &CliCloudOverrides,
    c: InferenceCategory,
) -> (r: Result<Option<CategoryConfig>, ParishError>)
    ensures
        match r {
            Ok(o) => spec_resolve_category(*toml, *env, *base, *cli, *cli_cloud, c) == Ok::<
                Option<(Provider, Seq<char>, Option<Seq<char>>, Option<Seq<char>>)>,
                Seq<char>,
            >(category_view(o)),
            Err(e) => e is Config && spec_resolve_category(*toml, *env, *base, *cli, *cli_cloud, c)
                == Err::<
                Option<(Provider, Seq<char>, Option<Seq<char>>, Option<Seq<char>>)>,
                Seq<char>,
            >(e.message()),
        },
{
    let t = Layer::of_toml_override(toml_override_for(toml, c));
    let e = Layer::of_env(env.group(c));
    let k = Layer::of_cli(cli.get(c));
    let lt = Layer {
        provider: copy_opt(&toml.cloud.name),
        base_url: copy_opt(&toml.cloud.base_url),
        api_key: copy_opt(&toml.cloud.api_key),
        model: copy_opt(&toml.cloud.model),
    };
    let le = Layer::of_env(&env.cloud);
    let lc = Layer {
        provider: copy_opt(&cli_cloud.provider),
        base_url: copy_opt(&cli_cloud.base_url),
        api_key: copy_opt(&cli_cloud.api_key),
        model: copy_opt(&cli_cloud.model),
    };
    let is_dialogue = c == InferenceCategory::Dialogue;
    let legacy = is_dialogue && (lt.is_set() || le.is_set() || lc.is_set());
    if !t.is_set() && !e.is_set() && !k.is_set() && !legacy {
        return Ok(None);
    }
    let start = Layer {
        provider: None,
        base_url: None,
        api_key: copy_opt(&base.api_key),
        model: copy_opt(&base.model),
    };
    let after_legacy = if is_dialogue {
        start.over(lt).over(le).over(lc)
    } else {
        start
    };
    let l = after_legacy.over(t).over(e).over(k);
    let provider = match provider_or(&l.provider, base.provider) {
        Ok(p) => p,
        Err(err) => return Err(err),
    };
    let resolved_url = match l.base_url {
        Some(u) if !u.as_str().is_empty() => u,
        _ => if l.provider.is_some() {
            owned(provider.default_base_url())
        } else {
            base.base_url.clone()
        },
    };
    let api_key = drop_empty(l.api_key);
    let model = drop_empty(l.model);
    if provider.requires_api_key() && api_key.is_none() {
        return Err(ParishError::Config(category_key_message(c, provider)));
    }
    if provider == Provider::Custom && resolved_url.as_str().is_empty() {
        return Err(ParishError::Config(category_url_message(c)));
    }
    Ok(Some(CategoryConfig { provider, base_url: resolved_url, api_key, model }))
}

/// What `resolve_category_configs` resolves to: the first error in the
/// order dialogue, simulation, intent, or the three results.
pub open spec fn spec_resolve_category_configs(
    toml: TomlConfig,
    env: EnvVars,
    base: ProviderConfig,
    cli: CliCategoryOverrides,
    cli_cloud: CliCloudOverrides,
) -> Result<
    (
        Option<(Provider, Seq<char>, Option<Seq<char>>, Option<Seq<char>>)>,
        Option<(Provider, Seq<char>, Option<Seq<char>>, Option<Seq<char>>)>,
        Option<(Provider, Seq<char>, Option<Seq<char>>, Option<Seq<char>>)>,
    ),
    Seq<char>,
> {
    let d = spec_resolve_category(toml, env, base, cli, cli_cloud, InferenceCategory::Dialogue);
    let s = spec_resolve_category(toml, env, base, cli, cli_cloud, InferenceCategory::Simulation);
    let i = spec_resolve_category(toml, env, base, cli, cli_cloud, InferenceCategory::Intent);
    match d {
        Err(m) => Err(m),
        Ok(dv) => match s {
            Err(m) => Err(m),
            Ok(sv) => match i {
                Err(m) => Err(m),
                Ok(iv) => Ok((dv, sv, iv)),
            },
        },
    }
}

/// Resolves per-category provider configurations on top of the base one.
///
/// For each category the layers are: the base key and model, then (for
/// dialogue only) the legacy `[cloud]` / `PARISH_CLOUD_*` / `--cloud-*`
/// values, then the TOML `[provider.<category>]` section, then the
/// `PARISH_<CATEGORY>_*` variables, then the category's CLI flags.
/// Categories with no overrides are left out.
pub fn resolve_category_configs(
    toml: &TomlConfig,
    env: &EnvVars,
    base: &ProviderConfig,
    cli_categories: &CliCategoryOverrides,
    cli_cloud: &CliCloudOverrides,
) -> (r: Result<CategoryConfigs, ParishError>)
    ensures
        match r {
            Ok(cs) => spec_resolve_category_configs(
                *toml,
                *env,
                *base,
                *cli_categories,
                *cli_cloud,
            ) == Ok::<
                (
                    Option<(Provider, Seq<char>, Option<Seq<char>>, Option<Seq<char>>)>,
                    Option<(Provider, Seq<char>, Option<Seq<char>>, Option<Seq<char>>)>,
                    Option<(Provider, Seq<char>, Option<Seq<char>>, Option<Seq<char>>)>,
                ),
                Seq<char>,
            >((category_view(cs.dialogue), category_view(cs.simulation), category_view(cs.intent))),
            Err(e) => e is Config && spec_resolve_category_configs(
                *toml,
                *env,
                *base,
                *cli_categories,
                *cli_cloud,
            ) == Err::<
                (
                    Option<(Provider, Seq<char>, Option<Seq<char>>, Option<Seq<char>>)>,
                    Option<(Provider, Seq<char>, Option<Seq<char>>, Option<Seq<char>>)>,
                    Option<(Provider, Seq<char>, Option<Seq<char>>, Option<Seq<char>>)>,
                ),
                Seq<char>,
            >(e.message()),
        },
{
    let dialogue = match resolve_category(
        toml,
        env,
        base,
        cli_categories,
        cli_cloud,
        InferenceCategory::Dialogue,
    ) {
        Ok(o) => o,
        Err(e) => return Err(e),
    };
    let simulation = match resolve_category(
        toml,
        env,
        base,
        cli_categories,
        cli_cloud,
        InferenceCategory::Simulation,
    ) {
        Ok(o) => o,
        Err(e) => return Err(e),
    };
    let intent = match resolve_category(
        toml,
        env,
        base,
        cli_categories,
        cli_cloud,
        InferenceCategory::Intent,
    ) {
        Ok(o) => o,
        Err(e) => return Err(e),
    };
    Ok(CategoryConfigs { dialogue, simulation, intent })
}


/// Law: configuration layers in the order CLI flags over environment
/// variables over the TOML file over defaults. A non-empty model, API key
/// or base URL given on the command line is the one resolved; without one
/// on the command line, a non-empty environment value wins over the file.
pub proof fn law_config_layering(toml: TomlConfig, env: EnvVars, cli: CliOverrides)
    requires
        spec_resolve_config(toml, env, cli) is Ok,
    ensures
        ({
            let c = spec_resolve_config(toml, env, cli)->Ok_0;
            &&& cli.model matches Some(m) ==> (m@.len() > 0 ==> c.3 == Some(m@))
            &&& cli.api_key matches Some(k) ==> (k@.len() > 0 ==> c.2 == Some(k@))
            &&& cli.base_url matches Some(u) ==> c.1 == u@
            &&& (cli.model is None && env_val(env.base.model) is Some) ==> c.3 == env_val(
                env.base.model,
            )
            &&& (cli.api_key is None && env_val(env.base.api_key) is Some) ==> c.2 == env_val(
                env.base.api_key,
            )
            &&& (cli.model is None && env_val(env.base.model) is None) ==> c.3 == non_empty(
                ov(toml.provider.model),
            )
        }),
{
}

/// Law: the base URL comes from the highest layer that gives one: a
/// `--base-url` flag, then `PARISH_BASE_URL` (set and non-empty), then the
/// file's `base_url`, then `PARISH_OLLAMA_URL`; with none of them it is the
/// resolved provider's default.
pub proof fn law_base_url_layering(toml: TomlConfig, env: EnvVars, cli: CliOverrides)
    requires
        spec_resolve_config(toml, env, cli) is Ok,
    ensures
        ({
            let c = spec_resolve_config(toml, env, cli)->Ok_0;
            &&& cli.base_url matches Some(u) ==> c.1 == u@
            &&& cli.base_url is None ==> (env_val(env.base.base_url) matches Some(u) ==> c.1 == u)
            &&& (cli.base_url is None && env_val(env.base.base_url) is None) ==> (
            toml.provider.base_url matches Some(u) ==> c.1 == u@)
            &&& (cli.base_url is None && env_val(env.base.base_url) is None
                && toml.provider.base_url is None) ==> (env_val(env.ollama_url) matches Some(u)
                ==> c.1 == u)
            &&& (cli.base_url is None && env_val(env.base.base_url) is None
                && toml.provider.base_url is None && env_val(env.ollama_url) is None) ==> c.1
                == spec_default_base_url(c.0)
        }),
{
}

/// Law: the provider name comes from the highest layer that gives one: a
/// `--provider` flag wins over `PARISH_PROVIDER` (when set and non-empty),
/// which wins over the file's `[provider] name`; with none of them the
/// provider is Ollama. The chosen name either parses to the resolved
/// provider or resolution fails.
pub proof fn law_provider_layering(toml: TomlConfig, env: EnvVars, cli: CliOverrides)
    ensures
        ({
            let chosen: Option<Seq<char>> = match cli.provider {
                Some(n) => Some(n@),
                None => match env.base.provider {
                    Some(n) => if n@.len() > 0 {
                        Some(n@)
                    } else {
                        ov(toml.provider.name)
                    },
                    None => ov(toml.provider.name),
                },
            };
            &&& spec_resolve_config(toml, env, cli) matches Ok(c) ==> match chosen {
                Some(n) => parse_provider(n) == Ok::<Provider, Seq<char>>(c.0),
                None => c.0 == Provider::Ollama,
            }
            &&& (chosen matches Some(n) && parse_provider(n) is Err) ==> spec_resolve_config(
                toml,
                env,
                cli,
            ) is Err
        }),
{
}

} // verus!
