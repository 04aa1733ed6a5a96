//! The model registry: the models of every provider, in one list.
//!
//! Only the Gemini provider exists. Whether it is configured (its API key
//! is set) is read from the environment by the caller and handed over.

use vstd::prelude::*;
use crate::agent_loop::gemini_models;
use crate::gemini::{
    default_context_window, get_config, get_models, handles_model, handles_model_spec,
    models_for_cache, models_view, ModelCache, ModelDef, ModelSpec,
};

verus! {

/// Information about an available LLM model (for API responses).
pub struct ModelInfo {
    /// Unique model identifier (e.g., "gemini-2.5-flash").
    pub id: String,
    /// Human-readable model name.
    pub name: String,
    /// Provider name (e.g., "google").
    pub provider: String,
    /// Context window size (token limit).
    pub context_window: u32,
    /// Whether this model is recommended for general use.
    pub recommended: bool,
    /// Model description.
    pub description: String,
    /// Whether this model is currently available (API key configured).
    pub available: bool,
}

/// Response for listing available models.
pub struct ModelsResponse {
    /// List of available models.
    pub models: Vec<ModelInfo>,
    /// Total count.
    pub count: usize,
    /// Default model ID.
    pub default_model: String,
    /// Whether the cache was refreshed from the API.
    pub cache_refreshed: Option<bool>,
}

/// The model information listed for a Gemini model.
pub open spec fn info_matches(info: ModelInfo, m: ModelSpec, available: bool) -> bool {
    &&& info.id@ == m.id
    &&& info.name@ == m.name
    &&& info.provider@ == "google"@
    &&& info.context_window == m.context_window
    &&& info.recommended == m.recommended
    &&& info.description@ == m.description
    &&& info.available == available
}

/// The description of a fallback model.
pub open spec fn fallback_description() -> Seq<char> {
    "Fallback model (the model list has not been fetched)"@
}

/// The fallback definition of a model the Gemini provider supports.
pub open spec fn fallback_model(id: Seq<char>) -> ModelSpec {
    ModelSpec {
        id,
        name: id,
        context_window: 1_000_000,
        recommended: false,
        description: fallback_description(),
    }
}

/// The static fallback list: the models the Gemini provider supports.
pub open spec fn fallback_models() -> Seq<ModelSpec> {
    gemini_models().map_values(|id: Seq<char>| fallback_model(id))
}

/// The models listed for a cache: the cached models, or the static
/// fallback while none has been fetched.
pub open spec fn listed_models(cache: Seq<ModelSpec>) -> Seq<ModelSpec> {
    if models_for_cache(cache).len() > 0 {
        models_for_cache(cache)
    } else {
        fallback_models()
    }
}

/// The fallback definition of one model.
fn fallback_def(id: &str) -> (r: ModelDef)
    ensures
        r@ == fallback_model(id@),
{
    ModelDef {
        id: String::from_str(id),
        name: String::from_str(id),
        context_window: default_context_window(),
        recommended: false,
        description: String::from_str("Fallback model (the model list has not been fetched)"),
    }
}

/// The static fallback list of model definitions.
fn fallback_defs() -> (r: Vec<ModelDef>)
    ensures
        models_view(r@) == fallback_models(),
{
    let mut r: Vec<ModelDef> = Vec::new();
    r.push(fallback_def("gemini-1.5-flash"));
    r.push(fallback_def("gemini-1.5-flash-8b"));
    r.push(fallback_def("gemini-1.5-pro"));
    r.push(fallback_def("gemini-2.0-flash"));
    proof {
        reveal_strlit("gemini-1.5-flash");
        reveal_strlit("gemini-1.5-flash-8b");
        reveal_strlit("gemini-1.5-pro");
        reveal_strlit("gemini-2.0-flash");
    }
    assert(models_view(r@) =~= fallback_models());
    r
}

/// All models of all providers, from the cache, or the static fallback of
/// the Gemini provider's supported models while the cache is empty; each
/// is available when its provider is configured.
pub fn get_available_models(gemini_configured: bool, cache: &ModelCache) -> (r: Vec<ModelInfo>)
    ensures
        r@.len() == listed_models(models_view(cache.models@)).len(),
        r@.len() > 0,
        forall|i: int|
            0 <= i < r@.len() ==> info_matches(
                #[trigger] r@[i],
                listed_models(models_view(cache.models@))[i],
                gemini_configured,
            ),
{
    let config = get_config();
    let mut models = get_models(cache);
    if models.len() == 0 {
        models = fallback_defs();
    }
    let mut r: Vec<ModelInfo> = Vec::new();
    let mut i: usize = 0;
    while i < models.len()
        invariant
            i <= models@.len(),
            config.provider@ == "google"@,
            models_view(models@) == listed_models(models_view(cache.models@)),
            r@.len() == i,
            forall|k: int|
                0 <= k < i ==> info_matches(
                    #[trigger] r@[k],
                    models_view(models@)[k],
                    gemini_configured,
                ),
        decreases models@.len() - i,
    {
        let m = &models[i];
        r.push(
            ModelInfo {
                id: m.id.clone(),
                name: m.name.clone(),
                provider: config.provider.clone(),
                context_window: m.context_window,
                recommended: m.recommended,
                description: m.description.clone(),
                available: gemini_configured,
            },
        );
        i = i + 1;
    }
    r
}

/// The default model id: Gemini's default when Gemini is configured, else
/// the first available model, else "gemini-2.5-flash". As no model is
/// available when Gemini is not configured, it is always Gemini's default.
pub fn get_default_model(gemini_configured: bool, cache: &ModelCache) -> (r: String)
    ensures
        r@ == "gemini-2.5-flash"@,
{
    if gemini_configured {
        return get_config().default_model;
    }
    let models = get_available_models(gemini_configured, cache);
    let mut i: usize = 0;
    while i < models.len()
        invariant
            i <= models@.len(),
            forall|k: int| 0 <= k < models@.len() ==> !(#[trigger] models@[k]).available,
        decreases models@.len() - i,
    {
        if models[i].available {
            return models[i].id.clone();
        }
        i = i + 1;
    }
    String::from_str("gemini-2.5-flash")
}

/// The provider name for a model id: "google" for the models Gemini
/// handles, none for the others.
pub fn get_provider_for_model(model_id: &str, cache: &ModelCache) -> (r: Option<&'static str>)
    ensures
        handles_model_spec(model_id@, models_view(cache.models@)) ==> (r matches Some(p)
            && p@ == "google"@),
        !handles_model_spec(model_id@, models_view(cache.models@)) ==> r.is_none(),
{
    if handles_model(model_id, cache) {
        return Some("google");
    }
    None
}

/// Whether a model id is valid (handled by some provider).
pub fn is_valid_model(model_id: &str, cache: &ModelCache) -> (b: bool)
    ensures
        b == handles_model_spec(model_id@, models_view(cache.models@)),
{
    handles_model(model_id, cache)
}

/// Whether any provider is configured.
pub fn any_provider_configured(gemini_configured: bool) -> (b: bool)
    ensures
        b == gemini_configured,
{
    gemini_configured
}

} // verus!
