use cline_xray::gemini::{
    cache_needs_refresh, get_config, get_models, handles_model, models_from_api, ApiModel,
    ModelCache, ModelDef,
};
use cline_xray::models::{
    any_provider_configured, get_available_models, get_default_model, get_provider_for_model,
    is_valid_model,
};

fn disk_cache() -> ModelCache {
    let mut cache = ModelCache::new();
    cache.store(
        vec![
            ModelDef {
                id: "gemini-2.5-flash".to_string(),
                name: "Gemini 2.5 Flash".to_string(),
                context_window: 1_048_576,
                recommended: true,
                description: "fast".to_string(),
            },
            ModelDef {
                id: "learnlm-2.0".to_string(),
                name: "LearnLM".to_string(),
                context_window: 32_768,
                recommended: false,
                description: String::new(),
            },
        ],
        1_700_000_000_000,
    );
    cache
}

#[test]
fn test_get_available_models() {
    let models = get_available_models(false, &ModelCache::new());

    // Should have Gemini models (at least fallback)
    assert!(!models.is_empty());
    assert!(models.iter().any(|m| m.provider == "google"));
}

#[test]
fn test_get_default_model() {
    let default = get_default_model(false, &ModelCache::new());
    // Should return a valid model ID
    assert!(!default.is_empty());
}

#[test]
fn test_get_provider_for_model() {
    let cache = ModelCache::new();
    let models = get_available_models(false, &cache);
    if let Some(model) = models.first() {
        assert_eq!(get_provider_for_model(&model.id, &cache), Some("google"));
    }
    assert_eq!(get_provider_for_model("unknown-model-xyz", &cache), None);
}

#[test]
fn default_model_is_gemini_default() {
    assert_eq!(get_default_model(true, &ModelCache::new()), "gemini-2.5-flash");
    assert_eq!(get_default_model(false, &ModelCache::new()), "gemini-2.5-flash");
    assert_eq!(get_config().default_model, "gemini-2.5-flash");
    assert_eq!(get_config().provider, "google");
    assert_eq!(get_config().env_key, "GEMINI_API_KEY");
}

#[test]
fn handles_model_prefixes_and_cache() {
    let empty = ModelCache::new();
    assert!(handles_model("gemini-9", &empty));
    assert!(handles_model("gemma-3", &empty));
    assert!(handles_model("models/gemini-x", &empty));
    assert!(handles_model("models/gemma-x", &empty));
    assert!(!handles_model("learnlm-2.0", &empty));
    assert!(handles_model("learnlm-2.0", &disk_cache()));
    assert!(is_valid_model("learnlm-2.0", &disk_cache()));
    assert!(!is_valid_model("gpt-4", &disk_cache()));
    assert_eq!(get_provider_for_model("learnlm-2.0", &disk_cache()), Some("google"));
}

#[test]
fn available_flag_and_fields() {
    let models = get_available_models(true, &disk_cache());
    assert_eq!(models.len(), 2);
    assert!(models.iter().all(|m| m.available));
    assert_eq!(models[1].id, "learnlm-2.0");
    assert_eq!(models[1].context_window, 32_768);
    assert_eq!(get_available_models(true, &ModelCache::new()).len(), 4);
    assert!(any_provider_configured(true));
    assert!(!any_provider_configured(false));
}

#[test]
fn cache_expiry() {
    let cache = disk_cache();
    let t = 1_700_000_000_000i64;
    assert!(!cache_needs_refresh(&cache, t));
    assert!(!cache_needs_refresh(&cache, t + 86_400_000));
    assert!(cache_needs_refresh(&cache, t + 86_400_001));
    assert!(cache_needs_refresh(&ModelCache::new(), t));
    assert_eq!(get_models(&cache).len(), 2);
    assert!(get_models(&ModelCache::new()).is_empty());
}

#[test]
fn api_models_conversion() {
    let api = vec![
        ApiModel {
            name: "models/gemini-2.5-flash".to_string(),
            display_name: Some("Gemini 2.5 Flash".to_string()),
            description: None,
            input_token_limit: Some(1_048_576),
            supported_generation_methods: vec!["generateContent".to_string()],
        },
        ApiModel {
            name: "models/embedding-001".to_string(),
            display_name: None,
            description: None,
            input_token_limit: None,
            supported_generation_methods: vec!["embedContent".to_string()],
        },
        ApiModel {
            name: "gemini-2.0-flash-lite".to_string(),
            display_name: None,
            description: Some("lite".to_string()),
            input_token_limit: None,
            supported_generation_methods: vec!["countTokens".to_string(), "generateContent".to_string()],
        },
    ];
    let models = models_from_api(&api);
    assert_eq!(models.len(), 2);
    assert_eq!(models[0].id, "gemini-2.5-flash");
    assert_eq!(models[0].name, "Gemini 2.5 Flash");
    assert!(models[0].recommended);
    assert_eq!(models[1].id, "gemini-2.0-flash-lite");
    assert_eq!(models[1].name, "gemini-2.0-flash-lite");
    assert_eq!(models[1].context_window, 1_000_000);
    assert_eq!(models[1].description, "lite");
    assert!(models[1].recommended);
}

#[test]
fn available_models_fallback_and_cache() {
    let fallback = get_available_models(true, &ModelCache::new());
    let ids: Vec<&str> = fallback.iter().map(|m| m.id.as_str()).collect();
    assert_eq!(ids, vec!["gemini-1.5-flash", "gemini-1.5-flash-8b", "gemini-1.5-pro", "gemini-2.0-flash"]);
    assert!(fallback.iter().all(|m| m.provider == "google" && m.available && m.context_window == 1_000_000));
    assert!(get_config().models.is_empty());
    let cached = get_available_models(false, &disk_cache());
    let ids: Vec<&str> = cached.iter().map(|m| m.id.as_str()).collect();
    assert_eq!(ids, vec!["gemini-2.5-flash", "learnlm-2.0"]);
    assert!(cached.iter().all(|m| !m.available));
}
