use parish::config::{
    resolve_category_configs, resolve_cloud_config, resolve_config, CliCategoryOverrides,
    CliCloudOverrides, CliOverrides, EnvVars, InferenceCategory, Provider, ProviderConfig,
    TomlCategoryOverride, TomlConfig,
};

#[test]
fn test_provider_from_str_loose() {
    assert_eq!(Provider::from_str_loose("ollama").unwrap(), Provider::Ollama);
    assert_eq!(Provider::from_str_loose("OLLAMA").unwrap(), Provider::Ollama);
    assert_eq!(Provider::from_str_loose("lmstudio").unwrap(), Provider::LmStudio);
    assert_eq!(Provider::from_str_loose("lm-studio").unwrap(), Provider::LmStudio);
    assert_eq!(Provider::from_str_loose("lm_studio").unwrap(), Provider::LmStudio);
    assert_eq!(Provider::from_str_loose("openrouter").unwrap(), Provider::OpenRouter);
    assert_eq!(Provider::from_str_loose("open-router").unwrap(), Provider::OpenRouter);
    assert_eq!(Provider::from_str_loose("custom").unwrap(), Provider::Custom);
    assert!(Provider::from_str_loose("unknown").is_err());
}

#[test]
fn unknown_provider_message_names_it_lower_cased() {
    let err = Provider::from_str_loose("FooBar").unwrap_err();
    assert_eq!(
        err.as_str(),
        "unknown provider 'foobar'. Expected: ollama, lmstudio, openrouter, custom"
    );
}

#[test]
fn test_provider_default_base_url() {
    assert_eq!(Provider::Ollama.default_base_url(), "http://localhost:11434");
    assert_eq!(Provider::LmStudio.default_base_url(), "http://localhost:1234");
    assert_eq!(Provider::OpenRouter.default_base_url(), "https://openrouter.ai/api");
    assert_eq!(Provider::Custom.default_base_url(), "");
}

#[test]
fn test_provider_requirements() {
    assert!(!Provider::Ollama.requires_api_key());
    assert!(!Provider::LmStudio.requires_api_key());
    assert!(Provider::OpenRouter.requires_api_key());
    assert!(!Provider::Custom.requires_api_key());

    assert!(!Provider::Ollama.requires_model());
    assert!(Provider::LmStudio.requires_model());
    assert!(Provider::OpenRouter.requires_model());
    assert!(Provider::Custom.requires_model());
}

#[test]
fn test_category_names() {
    assert_eq!(InferenceCategory::Dialogue.name(), "dialogue");
    assert_eq!(InferenceCategory::Simulation.name(), "simulation");
    assert_eq!(InferenceCategory::Intent.name(), "intent");
}

#[test]
fn category_env_prefixes_and_order() {
    let all = InferenceCategory::all();
    assert_eq!(all, [InferenceCategory::Dialogue, InferenceCategory::Simulation, InferenceCategory::Intent]);
    assert_eq!(InferenceCategory::Dialogue.env_prefix(), "PARISH_DIALOGUE");
    assert_eq!(InferenceCategory::Intent.env_prefix(), "PARISH_INTENT");
}

fn cli(provider: Option<&str>, base_url: Option<&str>, api_key: Option<&str>, model: Option<&str>) -> CliOverrides {
    CliOverrides {
        provider: provider.map(|s| s.to_string()),
        base_url: base_url.map(|s| s.to_string()),
        api_key: api_key.map(|s| s.to_string()),
        model: model.map(|s| s.to_string()),
    }
}

fn cloud(provider: Option<&str>, base_url: Option<&str>, api_key: Option<&str>, model: Option<&str>) -> CliCloudOverrides {
    CliCloudOverrides {
        provider: provider.map(|s| s.to_string()),
        base_url: base_url.map(|s| s.to_string()),
        api_key: api_key.map(|s| s.to_string()),
        model: model.map(|s| s.to_string()),
    }
}

#[test]
fn resolve_config_defaults() {
    let config = resolve_config(&TomlConfig::default(), &EnvVars::default(), &CliOverrides::default()).unwrap();
    assert_eq!(config.provider, Provider::Ollama);
    assert_eq!(config.base_url, "http://localhost:11434");
    assert!(config.api_key.is_none());
    assert!(config.model.is_none());
    assert_eq!(config.provider_display(), "ollama");
}

#[test]
fn resolve_config_from_toml() {
    let mut toml = TomlConfig::default();
    toml.provider.name = Some("lmstudio".to_string());
    toml.provider.base_url = Some("http://myhost:5555".to_string());
    toml.provider.model = Some("my-model".to_string());
    let config = resolve_config(&toml, &EnvVars::default(), &CliOverrides::default()).unwrap();
    assert_eq!(config.provider, Provider::LmStudio);
    assert_eq!(config.base_url, "http://myhost:5555");
    assert_eq!(config.model.as_deref(), Some("my-model"));
}

#[test]
fn resolve_config_cli_overrides_toml() {
    let mut toml = TomlConfig::default();
    toml.provider.name = Some("lmstudio".to_string());
    toml.provider.model = Some("toml-model".to_string());
    let config = resolve_config(&toml, &EnvVars::default(), &cli(None, None, None, Some("cli-model"))).unwrap();
    assert_eq!(config.provider, Provider::LmStudio);
    assert_eq!(config.model.as_deref(), Some("cli-model"));
}

#[test]
fn resolve_config_env_between_toml_and_cli() {
    let mut toml = TomlConfig::default();
    toml.provider.model = Some("toml-model".to_string());
    let mut env = EnvVars::default();
    env.base.model = Some("env-model".to_string());
    let config = resolve_config(&toml, &env, &CliOverrides::default()).unwrap();
    assert_eq!(config.model.as_deref(), Some("env-model"));
    let config = resolve_config(&toml, &env, &cli(None, None, None, Some("cli-model"))).unwrap();
    assert_eq!(config.model.as_deref(), Some("cli-model"));
    // An empty environment value counts as unset.
    env.base.model = Some(String::new());
    let config = resolve_config(&toml, &env, &CliOverrides::default()).unwrap();
    assert_eq!(config.model.as_deref(), Some("toml-model"));
}

#[test]
fn resolve_config_legacy_ollama_url() {
    let mut env = EnvVars::default();
    env.ollama_url = Some("http://legacy:11434".to_string());
    let config = resolve_config(&TomlConfig::default(), &env, &CliOverrides::default()).unwrap();
    assert_eq!(config.base_url, "http://legacy:11434");
    env.base.base_url = Some("http://newer:11434".to_string());
    let config = resolve_config(&TomlConfig::default(), &env, &CliOverrides::default()).unwrap();
    assert_eq!(config.base_url, "http://newer:11434");
}

#[test]
fn resolve_config_openrouter_requires_api_key() {
    let result = resolve_config(
        &TomlConfig::default(),
        &EnvVars::default(),
        &cli(Some("openrouter"), None, None, Some("vendor/large-model-4")),
    );
    let err = result.unwrap_err();
    assert_eq!(err.as_str(), "OpenRouter provider requires an API key. Set PARISH_API_KEY or --api-key.");
}

#[test]
fn resolve_config_openrouter_with_api_key() {
    let config = resolve_config(
        &TomlConfig::default(),
        &EnvVars::default(),
        &cli(Some("openrouter"), None, Some("sk-test-key"), Some("vendor/large-model-4")),
    )
    .unwrap();
    assert_eq!(config.provider, Provider::OpenRouter);
    assert_eq!(config.base_url, "https://openrouter.ai/api");
    assert_eq!(config.api_key.as_deref(), Some("sk-test-key"));
}

#[test]
fn resolve_config_custom_requires_base_url() {
    let result = resolve_config(
        &TomlConfig::default(),
        &EnvVars::default(),
        &cli(Some("custom"), None, None, Some("some-model")),
    );
    let err = result.unwrap_err();
    assert!(err.as_str().contains("base_url"), "got: {}", err.as_str());
}

#[test]
fn resolve_config_empty_strings_filtered() {
    let config = resolve_config(&TomlConfig::default(), &EnvVars::default(), &cli(None, None, Some(""), Some(""))).unwrap();
    assert!(config.api_key.is_none());
    assert!(config.model.is_none());
}

#[test]
fn resolve_config_bad_provider_name() {
    let err = resolve_config(&TomlConfig::default(), &EnvVars::default(), &cli(Some("nope"), None, None, None)).unwrap_err();
    assert!(err.as_str().starts_with("unknown provider 'nope'"));
}

#[test]
fn resolve_cloud_config_none_when_not_configured() {
    let result = resolve_cloud_config(&TomlConfig::default(), &EnvVars::default(), &CliCloudOverrides::default()).unwrap();
    assert!(result.is_none());
}

#[test]
fn resolve_cloud_config_from_toml() {
    let mut toml = TomlConfig::default();
    toml.provider.name = Some("ollama".to_string());
    toml.cloud.name = Some("openrouter".to_string());
    toml.cloud.api_key = Some("sk-test".to_string());
    toml.cloud.model = Some("vendor/large-model-4".to_string());
    let config = resolve_cloud_config(&toml, &EnvVars::default(), &CliCloudOverrides::default()).unwrap().unwrap();
    assert_eq!(config.provider, Provider::OpenRouter);
    assert_eq!(config.base_url, "https://openrouter.ai/api");
    assert_eq!(config.api_key.as_deref(), Some("sk-test"));
    assert_eq!(config.model, "vendor/large-model-4");
}

#[test]
fn resolve_cloud_config_from_cli() {
    let config = resolve_cloud_config(
        &TomlConfig::default(),
        &EnvVars::default(),
        &cloud(Some("openrouter"), None, Some("sk-cli"), Some("gpt-4")),
    )
    .unwrap()
    .unwrap();
    assert_eq!(config.provider, Provider::OpenRouter);
    assert_eq!(config.api_key.as_deref(), Some("sk-cli"));
    assert_eq!(config.model, "gpt-4");
}

#[test]
fn resolve_cloud_config_requires_model() {
    let err = resolve_cloud_config(
        &TomlConfig::default(),
        &EnvVars::default(),
        &cloud(Some("openrouter"), None, Some("sk-test"), None),
    )
    .unwrap_err();
    assert!(err.as_str().contains("model"), "got: {}", err.as_str());
}

#[test]
fn resolve_cloud_config_openrouter_requires_api_key() {
    let err = resolve_cloud_config(
        &TomlConfig::default(),
        &EnvVars::default(),
        &cloud(Some("openrouter"), None, None, Some("chat-model-3")),
    )
    .unwrap_err();
    assert!(err.as_str().contains("API key"), "got: {}", err.as_str());
}

#[test]
fn resolve_cloud_config_defaults_to_openrouter() {
    let config = resolve_cloud_config(
        &TomlConfig::default(),
        &EnvVars::default(),
        &cloud(None, None, Some("sk-test"), Some("my-model")),
    )
    .unwrap()
    .unwrap();
    assert_eq!(config.provider, Provider::OpenRouter);
    assert_eq!(config.base_url, "https://openrouter.ai/api");
}

#[test]
fn resolve_cloud_config_cli_overrides_toml() {
    let mut toml = TomlConfig::default();
    toml.cloud.name = Some("openrouter".to_string());
    toml.cloud.api_key = Some("sk-toml".to_string());
    toml.cloud.model = Some("toml-model".to_string());
    let config = resolve_cloud_config(&toml, &EnvVars::default(), &cloud(None, None, None, Some("cli-model")))
        .unwrap()
        .unwrap();
    assert_eq!(config.model, "cli-model");
    assert_eq!(config.api_key.as_deref(), Some("sk-toml"));
}

#[test]
fn resolve_cloud_config_ollama_no_key_needed() {
    let config = resolve_cloud_config(
        &TomlConfig::default(),
        &EnvVars::default(),
        &cloud(Some("ollama"), Some("http://remote-ollama:11434"), None, Some("llama3")),
    )
    .unwrap()
    .unwrap();
    assert_eq!(config.provider, Provider::Ollama);
    assert_eq!(config.base_url, "http://remote-ollama:11434");
    assert_eq!(config.model, "llama3");
}

fn base(model: Option<&str>, url: &str) -> ProviderConfig {
    ProviderConfig {
        provider: Provider::Ollama,
        base_url: url.to_string(),
        api_key: None,
        model: model.map(|s| s.to_string()),
    }
}

#[test]
fn resolve_category_configs_empty_when_no_overrides() {
    let configs = resolve_category_configs(
        &TomlConfig::default(),
        &EnvVars::default(),
        &base(Some("qwen3:14b"), "http://localhost:11434"),
        &CliCategoryOverrides::default(),
        &CliCloudOverrides::default(),
    )
    .unwrap();
    assert_eq!(configs.len(), 0);
}

#[test]
fn resolve_category_configs_from_toml() {
    let mut toml = TomlConfig::default();
    toml.provider.name = Some("ollama".to_string());
    toml.provider.model = Some("qwen3:14b".to_string());
    toml.provider.dialogue = Some(TomlCategoryOverride {
        name: Some("openrouter".to_string()),
        base_url: Some("https://openrouter.ai/api".to_string()),
        api_key: Some("sk-cat-test".to_string()),
        model: Some("vendor/large-model-4".to_string()),
    });
    toml.provider.intent = Some(TomlCategoryOverride {
        model: Some("qwen3:1.5b".to_string()),
        ..TomlCategoryOverride::default()
    });
    let configs = resolve_category_configs(
        &toml,
        &EnvVars::default(),
        &base(Some("qwen3:14b"), "http://localhost:11434"),
        &CliCategoryOverrides::default(),
        &CliCloudOverrides::default(),
    )
    .unwrap();
    let dialogue = configs.get(InferenceCategory::Dialogue).as_ref().unwrap();
    assert_eq!(dialogue.provider, Provider::OpenRouter);
    assert_eq!(dialogue.base_url, "https://openrouter.ai/api");
    assert_eq!(dialogue.api_key.as_deref(), Some("sk-cat-test"));
    assert_eq!(dialogue.model.as_deref(), Some("vendor/large-model-4"));

    let intent = configs.get(InferenceCategory::Intent).as_ref().unwrap();
    assert_eq!(intent.provider, Provider::Ollama);
    assert_eq!(intent.base_url, "http://localhost:11434");
    assert_eq!(intent.model.as_deref(), Some("qwen3:1.5b"));

    assert!(configs.get(InferenceCategory::Simulation).is_none());
    assert_eq!(configs.len(), 2);
}

#[test]
fn resolve_category_configs_legacy_cloud_maps_to_dialogue() {
    let configs = resolve_category_configs(
        &TomlConfig::default(),
        &EnvVars::default(),
        &base(Some("qwen3:14b"), "http://localhost:11434"),
        &CliCategoryOverrides::default(),
        &cloud(Some("openrouter"), None, Some("sk-legacy"), Some("gpt-4")),
    )
    .unwrap();
    let dialogue = configs.get(InferenceCategory::Dialogue).as_ref().unwrap();
    assert_eq!(dialogue.provider, Provider::OpenRouter);
    assert_eq!(dialogue.api_key.as_deref(), Some("sk-legacy"));
    assert_eq!(dialogue.model.as_deref(), Some("gpt-4"));
}

#[test]
fn resolve_category_configs_toml_overrides_legacy_cloud() {
    let mut toml = TomlConfig::default();
    toml.provider.name = Some("ollama".to_string());
    toml.cloud.name = Some("openrouter".to_string());
    toml.cloud.api_key = Some("sk-cloud-legacy".to_string());
    toml.cloud.model = Some("legacy-model".to_string());
    toml.provider.dialogue = Some(TomlCategoryOverride {
        name: Some("custom".to_string()),
        base_url: Some("https://my-api.example.com".to_string()),
        api_key: Some("sk-new".to_string()),
        model: Some("new-model".to_string()),
    });
    let configs = resolve_category_configs(
        &toml,
        &EnvVars::default(),
        &base(None, "http://localhost:11434"),
        &CliCategoryOverrides::default(),
        &CliCloudOverrides::default(),
    )
    .unwrap();
    let dialogue = configs.get(InferenceCategory::Dialogue).as_ref().unwrap();
    assert_eq!(dialogue.provider, Provider::Custom);
    assert_eq!(dialogue.base_url, "https://my-api.example.com");
    assert_eq!(dialogue.api_key.as_deref(), Some("sk-new"));
    assert_eq!(dialogue.model.as_deref(), Some("new-model"));
}

#[test]
fn resolve_category_configs_cli_overrides() {
    let cli_cat = CliCategoryOverrides {
        dialogue: None,
        simulation: Some(cli(Some("openrouter"), None, Some("sk-sim"), Some("sim-model"))),
        intent: None,
    };
    let configs = resolve_category_configs(
        &TomlConfig::default(),
        &EnvVars::default(),
        &base(Some("qwen3:14b"), "http://localhost:11434"),
        &cli_cat,
        &CliCloudOverrides::default(),
    )
    .unwrap();
    let sim = configs.get(InferenceCategory::Simulation).as_ref().unwrap();
    assert_eq!(sim.provider, Provider::OpenRouter);
    assert_eq!(sim.base_url, "https://openrouter.ai/api");
    assert_eq!(sim.api_key.as_deref(), Some("sk-sim"));
    assert_eq!(sim.model.as_deref(), Some("sim-model"));
}

#[test]
fn resolve_category_configs_validates_api_key() {
    let cli_cat = CliCategoryOverrides {
        dialogue: None,
        simulation: None,
        intent: Some(cli(Some("openrouter"), None, None, Some("model"))),
    };
    let err = resolve_category_configs(
        &TomlConfig::default(),
        &EnvVars::default(),
        &base(None, "http://localhost:11434"),
        &cli_cat,
        &CliCloudOverrides::default(),
    )
    .unwrap_err();
    assert!(err.as_str().contains("intent"), "got: {}", err.as_str());
    assert!(err.as_str().contains("API key"), "got: {}", err.as_str());
}

#[test]
fn resolve_category_configs_inherits_base_url() {
    let mut toml = TomlConfig::default();
    toml.provider.name = Some("ollama".to_string());
    toml.provider.base_url = Some("http://remote-ollama:11434".to_string());
    toml.provider.simulation = Some(TomlCategoryOverride {
        model: Some("qwen3:8b".to_string()),
        ..TomlCategoryOverride::default()
    });
    let configs = resolve_category_configs(
        &toml,
        &EnvVars::default(),
        &base(Some("qwen3:14b"), "http://remote-ollama:11434"),
        &CliCategoryOverrides::default(),
        &CliCloudOverrides::default(),
    )
    .unwrap();
    let sim = configs.get(InferenceCategory::Simulation).as_ref().unwrap();
    assert_eq!(sim.provider, Provider::Ollama);
    assert_eq!(sim.base_url, "http://remote-ollama:11434");
    assert_eq!(sim.model.as_deref(), Some("qwen3:8b"));
}
