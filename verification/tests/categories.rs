use parish::categories::CategorySettings;
use parish::config::InferenceCategory;

#[test]
fn new_settings_inherit_everything() {
    let s = CategorySettings::new();
    for c in InferenceCategory::all() {
        assert!(s.category_provider_name(c).is_none());
        assert!(s.category_api_key(c).is_none());
        assert!(s.category_base_url(c).is_none());
        assert_eq!(s.category_model(c), "");
    }
}

#[test]
fn set_then_get_per_category() {
    let mut s = CategorySettings::new();
    s.set_category_provider_name(InferenceCategory::Simulation, "lmstudio".to_string());
    s.set_category_model(InferenceCategory::Intent, "qwen3:1.5b".to_string());
    s.set_category_api_key(InferenceCategory::Dialogue, "sk-d".to_string());
    s.set_category_base_url(InferenceCategory::Intent, "http://x:1".to_string());
    assert_eq!(s.category_provider_name(InferenceCategory::Simulation), Some("lmstudio"));
    assert!(s.category_provider_name(InferenceCategory::Dialogue).is_none());
    assert_eq!(s.category_model(InferenceCategory::Intent), "qwen3:1.5b");
    assert_eq!(s.category_model(InferenceCategory::Simulation), "");
    assert_eq!(s.category_api_key(InferenceCategory::Dialogue), Some("sk-d"));
    assert_eq!(s.category_base_url(InferenceCategory::Intent), Some("http://x:1"));
    assert!(s.category_base_url(InferenceCategory::Simulation).is_none());
}

#[test]
fn dialogue_model_sets_queue_model_too() {
    let mut s = CategorySettings::new();
    s.set_category_model(InferenceCategory::Dialogue, "vendor/large-model-4".to_string());
    assert_eq!(s.category_model(InferenceCategory::Dialogue), "vendor/large-model-4");
    assert_eq!(s.dialogue_model, "vendor/large-model-4");
    assert_eq!(s.cloud_model_name.as_deref(), Some("vendor/large-model-4"));
    s.set_category_model(InferenceCategory::Simulation, "sim".to_string());
    assert_eq!(s.dialogue_model, "vendor/large-model-4");
}
