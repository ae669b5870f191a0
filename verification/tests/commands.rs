use parish::commands::{
    api_key_line, category_model_line, category_provider_line, cloud_line,
    improv_toggle_message, mask_api_key, sidebar_toggle_message, status_line, system_help,
    unknown_speed_message,
};
use parish::config::InferenceCategory;
use parish::world::{Season, TimeOfDay};

#[test]
fn api_keys_are_masked() {
    assert_eq!(mask_api_key("sk-or-v1-abcdef123456"), "sk-o...3456");
    assert_eq!(mask_api_key("123456789"), "1234...6789");
    // Multi-byte characters away from the cuts are fine.
    assert_eq!(mask_api_key("abcdéééwxyz"), "abcd...wxyz");
}

#[test]
fn api_key_lines() {
    assert_eq!(api_key_line("API key", Some("sk-test-key-1234")), "API key: sk-t...1234");
    assert_eq!(api_key_line("API key", Some("12345678")), "API key: (set, too short to mask)");
    assert_eq!(api_key_line("Cloud API key", None), "Cloud API key: (not set)");
    assert_eq!(api_key_line("dialogue API key", Some("short")), "dialogue API key: (set, too short to mask)");
}

#[test]
fn toggle_messages() {
    assert_eq!(sidebar_toggle_message(true), "The pronunciation guide opens at your side.");
    assert_eq!(sidebar_toggle_message(false), "The pronunciation guide folds away.");
    assert_eq!(improv_toggle_message(true), "The characters loosen up — improv craft engaged.");
    assert_eq!(improv_toggle_message(false), "The characters settle back to their usual selves.");
}

#[test]
fn status_lines() {
    assert_eq!(
        status_line("The Crossroads", TimeOfDay::Morning, Season::Spring, false),
        "Location: The Crossroads | Morning | Spring "
    );
    assert_eq!(
        status_line("Darcy's Pub", TimeOfDay::Night, Season::Winter, true),
        "Location: Darcy's Pub | Night | Winter  (paused)"
    );
}

#[test]
fn unknown_speed() {
    assert_eq!(
        unknown_speed_message("warp"),
        "Unknown speed 'warp'. Try: slow, normal, fast, fastest, ludicrous."
    );
}

#[test]
fn category_lines() {
    assert_eq!(
        category_provider_line(InferenceCategory::Intent, None, "ollama"),
        "intent provider: (inherits base: ollama)"
    );
    assert_eq!(
        category_provider_line(InferenceCategory::Dialogue, Some("openrouter"), "ollama"),
        "dialogue provider: openrouter"
    );
    assert_eq!(
        category_model_line(InferenceCategory::Simulation, "", "qwen3:14b"),
        "simulation model: (inherits base: qwen3:14b)"
    );
    assert_eq!(
        category_model_line(InferenceCategory::Simulation, "qwen3:8b", "qwen3:14b"),
        "simulation model: qwen3:8b"
    );
}

#[test]
fn cloud_lines() {
    assert_eq!(cloud_line(Some("openrouter"), Some("m")), "Cloud: openrouter | Model: m");
    assert_eq!(cloud_line(Some("openrouter"), None), "Cloud: openrouter | Model: (none)");
    assert_eq!(
        cloud_line(None, Some("m")),
        "No cloud provider configured. Use --cloud-provider or parish.toml [cloud]."
    );
}

#[test]
fn system_help_lines() {
    let lines = system_help();
    assert_eq!(lines.len(), 19);
    assert_eq!(lines[0], "A few things ye might say:");
    assert_eq!(lines[18], "  /log      — Show snapshot history");
}
