//! The Google Gemini provider: its configuration, its model definitions and
//! the model cache with its expiry.
//!
//! The cache is held by the caller; reading the API key from the
//! environment, fetching the model list over HTTP and the disk copy of the
//! cache are left to the caller, which hands over what it obtained.

use vstd::prelude::*;
use crate::text::{
    chars_eq, chars_of, contains_chars, contains_sub, has_prefix, starts_with, strings_view,
    string_from_chars,
};

verus! {

/// Cache time-to-live for the model list, in hours.
pub const MODEL_CACHE_TTL_HOURS: i64 = 24;

/// Cache time-to-live for the model list, in milliseconds.
pub const MODEL_CACHE_TTL_MS: i64 = 86_400_000;

/// Model definition for this provider.
#[derive(Debug)]
pub struct ModelDef {
    /// Unique model ID.
    pub id: String,
    /// Human-readable name.
    pub name: String,
    /// Context window size.
    pub context_window: u32,
    /// Whether this model is recommended.
    pub recommended: bool,
    /// Model description.
    pub description: String,
}

/// The value of a model definition.
pub ghost struct ModelSpec {
    pub id: Seq<char>,
    pub name: Seq<char>,
    pub context_window: u32,
    pub recommended: bool,
    pub description: Seq<char>,
}

impl View for ModelDef {
    type V = ModelSpec;

    open spec fn view(&self) -> ModelSpec {
        ModelSpec {
            id: self.id@,
            name: self.name@,
            context_window: self.context_window,
            recommended: self.recommended,
            description: self.description@,
        }
    }
}

/// The values of a sequence of model definitions.
pub open spec fn models_view(v: Seq<ModelDef>) -> Seq<ModelSpec> {
    v.map_values(|m: ModelDef| m@)
}

/// The ids of a sequence of model definitions.
pub open spec fn model_ids(v: Seq<ModelSpec>) -> Seq<Seq<char>> {
    v.map_values(|m: ModelSpec| m.id)
}

/// Provider configuration.
pub struct ProviderConfig {
    /// Provider name (e.g., "google").
    pub provider: String,
    /// Environment variable key for the API key.
    pub env_key: String,
    /// Default model for this provider.
    pub default_model: String,
    /// Static list of models (fallback when the cache is empty).
    pub models: Vec<ModelDef>,
}

/// The Gemini provider configuration: provider "google", key in
/// `GEMINI_API_KEY`, default model "gemini-2.5-flash", no static models
/// (models come from the API cache).
pub open spec fn gemini_config_is(c: ProviderConfig) -> bool {
    &&& c.provider@ == "google"@
    &&& c.env_key@ == "GEMINI_API_KEY"@
    &&& c.default_model@ == "gemini-2.5-flash"@
    &&& c.models@.len() == 0
}

/// Cached model list with the time it was fetched.
pub struct ModelCache {
    /// The cached models.
    pub models: Vec<ModelDef>,
    /// When the list was fetched, in epoch milliseconds (UTC).
    pub fetched_at_ms: Option<i64>,
    /// The error of the last failed refresh.
    pub fetch_error: Option<String>,
}

/// A cache fetched at `fetched_at` is out of date at `now` (all in epoch
/// milliseconds): more than 24 hours have passed, or it was never fetched.
pub open spec fn expired_at(fetched_at: Option<i64>, now_ms: i64) -> bool {
    match fetched_at {
        Some(t) => now_ms - t > MODEL_CACHE_TTL_MS,
        None => true,
    }
}

/// The model list that `get_models` yields for a cache: the cached models
/// when there are any, else the (empty) static list.
pub open spec fn models_for_cache(cache: Seq<ModelSpec>) -> Seq<ModelSpec> {
    if cache.len() > 0 {
        cache
    } else {
        Seq::<ModelSpec>::empty()
    }
}

/// Whether the Gemini provider handles a model id: it looks like a Gemini
/// or Gemma model, or it is one of the cached models.
pub open spec fn handles_model_spec(model_id: Seq<char>, cache: Seq<ModelSpec>) -> bool {
    ||| starts_with(model_id, "gemini-"@)
    ||| starts_with(model_id, "gemma-"@)
    ||| starts_with(model_id, "models/gemini-"@)
    ||| starts_with(model_id, "models/gemma-"@)
    ||| model_ids(cache).contains(model_id)
}

/// The context window assumed when the model list does not give one.
pub fn default_context_window() -> (r: u32)
    ensures
        r == 1_000_000,
{
    1_000_000
}

/// The Gemini provider configuration.
pub fn load_config() -> (c: ProviderConfig)
    ensures
        gemini_config_is(c),
{
    ProviderConfig {
        provider: String::from_str("google"),
        env_key: String::from_str("GEMINI_API_KEY"),
        default_model: String::from_str("gemini-2.5-flash"),
        models: Vec::new(),
    }
}

/// The Gemini provider configuration (base config).
pub fn get_config() -> (c: ProviderConfig)
    ensures
        gemini_config_is(c),
{
    load_config()
}

/// A copy of a model definition.
pub fn clone_model(m: &ModelDef) -> (r: ModelDef)
    ensures
        r@ == m@,
{
    ModelDef {
        id: m.id.clone(),
        name: m.name.clone(),
        context_window: m.context_window,
        recommended: m.recommended,
        description: m.description.clone(),
    }
}

/// A copy of a list of model definitions.
pub fn clone_models(v: &[ModelDef]) -> (r: Vec<ModelDef>)
    ensures
        models_view(r@) == models_view(v@),
{
    let mut r: Vec<ModelDef> = Vec::new();
    let mut i: usize = 0;
    while i < v.len()
        invariant
            i <= v@.len(),
            models_view(r@) == models_view(v@.take(i as int)),
        decreases v@.len() - i,
    {
        let m = clone_model(&v[i]);
        let ghost before = r@;
        let ghost mv = m@;
        r.push(m);
        i = i + 1;
        assert(r@ == before.push(m));
        assert(models_view(r@) =~= models_view(before).push(mv));
        assert(v@.take(i as int) =~= v@.take(i - 1).push(v@[i - 1]));
        assert(models_view(r@) =~= models_view(v@.take(i as int)));
    }
    assert(v@.take(v@.len() as int) =~= v@);
    r
}

impl ModelCache {
    /// An empty cache that was never fetched.
    pub fn new() -> (c: Self)
        ensures
            c.models@.len() == 0,
            c.fetched_at_ms.is_none(),
            c.fetch_error.is_none(),
    {
        ModelCache { models: Vec::new(), fetched_at_ms: None, fetch_error: None }
    }

    /// Whether the cache is out of date at `now_ms`.
    pub fn is_expired(&self, now_ms: i64) -> (b: bool)
        ensures
            b == expired_at(self.fetched_at_ms, now_ms),
    {
        match self.fetched_at_ms {
            Some(t) => (now_ms as i128) - (t as i128) > (MODEL_CACHE_TTL_MS as i128),
            None => true,
        }
    }

    /// Record a successful fetch of `models` at `now_ms`.
    pub fn store(&mut self, models: Vec<ModelDef>, now_ms: i64)
        ensures
            final(self).models@ == models@,
            final(self).fetched_at_ms == Some(now_ms),
            final(self).fetch_error.is_none(),
    {
        self.models = models;
        self.fetched_at_ms = Some(now_ms);
        self.fetch_error = None;
    }

    /// Record a failed refresh; the cached models stay.
    pub fn record_fetch_error(&mut self, error: String)
        ensures
            final(self).models@ == old(self).models@,
            final(self).fetched_at_ms == old(self).fetched_at_ms,
            final(self).fetch_error == Some(error),
    {
        self.fetch_error = Some(error);
    }
}

/// Whether the model cache needs a refresh at `now_ms`.
pub fn cache_needs_refresh(cache: &ModelCache, now_ms: i64) -> (b: bool)
    ensures
        b == expired_at(cache.fetched_at_ms, now_ms),
{
    cache.is_expired(now_ms)
}

/// The models: the cached ones, or the static fallback when the cache is
/// empty.
pub fn get_models(cache: &ModelCache) -> (r: Vec<ModelDef>)
    ensures
        models_view(r@) == models_for_cache(models_view(cache.models@)),
{
    if cache.models.len() > 0 {
        clone_models(&cache.models)
    } else {
        let config = get_config();
        let r = clone_models(&config.models);
        assert(models_view(r@) =~= Seq::<ModelSpec>::empty());
        r
    }
}

/// Whether one of the models has the given id.
fn has_model_id(models: &[ModelDef], id: &[char]) -> (b: bool)
    ensures
        b == model_ids(models_view(models@)).contains(id@),
{
    let mut i: usize = 0;
    while i < models.len()
        invariant
            i <= models@.len(),
            forall|k: int| 0 <= k < i ==> models@[k].id@ != id@,
        decreases models@.len() - i,
    {
        let mid = chars_of(models[i].id.as_str());
        if chars_eq(&mid, id) {
            assert(model_ids(models_view(models@))[i as int] == id@);
            return true;
        }
        i = i + 1;
    }
    proof {
        if model_ids(models_view(models@)).contains(id@) {
            let k = choose|k: int|
                0 <= k < model_ids(models_view(models@)).len() && model_ids(
                    models_view(models@),
                )[k] == id@;
            assert(models@[k].id@ == id@);
        }
    }
    false
}

/// Whether the Gemini provider handles a model id.
pub fn handles_model(model_id: &str, cache: &ModelCache) -> (b: bool)
    ensures
        b == handles_model_spec(model_id@, models_view(cache.models@)),
{
    let id = chars_of(model_id);
    let p1 = chars_of("gemini-");
    let p2 = chars_of("gemma-");
    let p3 = chars_of("models/gemini-");
    let p4 = chars_of("models/gemma-");
    if has_prefix(&id, &p1) || has_prefix(&id, &p2) || has_prefix(&id, &p3) || has_prefix(
        &id,
        &p4,
    ) {
        return true;
    }
    if cache.models.len() > 0 && has_model_id(&cache.models, &id) {
        return true;
    }
    let config = get_config();
    let r = has_model_id(&config.models, &id);
    proof {
        if cache.models@.len() == 0 {
            assert(model_ids(models_view(cache.models@)) =~= Seq::<Seq<char>>::empty());
        }
    }
    r
}

/// A model entry of the Gemini `models` API response.
pub struct ApiModel {
    /// Resource name, e.g. "models/gemini-2.5-flash".
    pub name: String,
    /// Display name.
    pub display_name: Option<String>,
    /// Description.
    pub description: Option<String>,
    /// Input token limit.
    pub input_token_limit: Option<u32>,
    /// Generation methods the model supports.
    pub supported_generation_methods: Vec<String>,
}

/// The model id of an API resource name: without a leading `models/`.
pub open spec fn api_model_id(name: Seq<char>) -> Seq<char> {
    if starts_with(name, "models/"@) {
        name.skip(7)
    } else {
        name
    }
}

/// The model definition made from an API model entry.
pub open spec fn api_model_def(m: ApiModel) -> ModelSpec {
    let id = api_model_id(m.name@);
    ModelSpec {
        id: id,
        name: match m.display_name {
            Some(n) => n@,
            None => id,
        },
        context_window: match m.input_token_limit {
            Some(l) => l,
            None => 1_000_000,
        },
        recommended: contains_sub(id, "2.5-flash"@) || contains_sub(id, "2.0-flash"@),
        description: match m.description {
            Some(d) => d@,
            None => Seq::<char>::empty(),
        },
    }
}

/// An API model entry is kept when it supports `generateContent`.
pub open spec fn api_model_kept(m: ApiModel) -> bool {
    strings_view(m.supported_generation_methods@).contains("generateContent"@)
}

/// The model definitions made from the API response, in order.
pub open spec fn api_models_defs(api: Seq<ApiModel>) -> Seq<ModelSpec>
    decreases api.len(),
{
    if api.len() == 0 {
        Seq::<ModelSpec>::empty()
    } else {
        let rest = api_models_defs(api.drop_last());
        if api_model_kept(api.last()) {
            rest.push(api_model_def(api.last()))
        } else {
            rest
        }
    }
}

/// Whether one of the strings equals `target`.
pub fn strings_contain(v: &[String], target: &[char]) -> (b: bool)
    ensures
        b == strings_view(v@).contains(target@),
{
    let mut i: usize = 0;
    while i < v.len()
        invariant
            i <= v@.len(),
            forall|k: int| 0 <= k < i ==> v@[k]@ != target@,
        decreases v@.len() - i,
    {
        let c = chars_of(v[i].as_str());
        if chars_eq(&c, target) {
            assert(strings_view(v@)[i as int] == target@);
            return true;
        }
        i = i + 1;
    }
    proof {
        if strings_view(v@).contains(target@) {
            let k = choose|k: int|
                0 <= k < strings_view(v@).len() && strings_view(v@)[k] == target@;
            assert(v@[k]@ == target@);
        }
    }
    false
}

/// The model definition for one API model entry.
fn model_from_api(m: &ApiModel) -> (r: ModelDef)
    ensures
        r@ == api_model_def(*m),
{
    let name = chars_of(m.name.as_str());
    let prefix = chars_of("models/");
    proof {
        reveal_strlit("models/");
    }
    let id_chars: Vec<char> = if has_prefix(&name, &prefix) {
        let mut v: Vec<char> = Vec::new();
        let mut i: usize = 7;
        while i < name.len()
            invariant
                7 <= i <= name@.len(),
                v@ == name@.subrange(7, i as int),
            decreases name@.len() - i,
        {
            v.push(name[i]);
            i = i + 1;
            assert(v@ =~= name@.subrange(7, i as int));
        }
        assert(v@ =~= name@.skip(7));
        v
    } else {
        name
    };
    let id = string_from_chars(&id_chars);
    let f25 = chars_of("2.5-flash");
    let f20 = chars_of("2.0-flash");
    let recommended = contains_chars(&id_chars, &f25) || contains_chars(&id_chars, &f20);
    let display = match &m.display_name {
        Some(n) => n.clone(),
        None => id.clone(),
    };
    let description = match &m.description {
        Some(d) => d.clone(),
        None => String::new(),
    };
    let context_window = match m.input_token_limit {
        Some(l) => l,
        None => default_context_window(),
    };
    ModelDef { id, name: display, context_window, recommended, description }
}

/// The model definitions for the `models` API response: the entries that
/// support `generateContent`, with the `models/` prefix stripped from their
/// ids, recommended when the id contains "2.5-flash" or "2.0-flash".
pub fn models_from_api(api: &[ApiModel]) -> (r: Vec<ModelDef>)
    ensures
        models_view(r@) == api_models_defs(api@),
{
    let generate = chars_of("generateContent");
    let mut r: Vec<ModelDef> = Vec::new();
    let mut i: usize = 0;
    while i < api.len()
        invariant
            i <= api@.len(),
            generate@ == "generateContent"@,
            models_view(r@) == api_models_defs(api@.take(i as int)),
        decreases api@.len() - i,
    {
        let ghost pre = api@.take(i + 1);
        proof {
            assert(pre.drop_last() =~= api@.take(i as int));
        }
        if strings_contain(&api[i].supported_generation_methods, &generate) {
            let m = model_from_api(&api[i]);
            r.push(m);
            assert(models_view(r@) =~= api_models_defs(pre));
        }
        i = i + 1;
    }
    assert(api@.take(api@.len() as int) =~= api@);
    r
}

/// What came of fetching the model list from the Google API.
pub enum ModelsFetch {
    /// No API key is set.
    NoKey,
    /// The HTTP client could not be built.
    ClientFailed(String),
    /// The request could not be sent.
    SendFailed(String),
    /// A status that is not a success (`status` as displayed), with the body.
    HttpError { status: String, body: String },
    /// The body could not be read.
    ReadFailed(String),
    /// The body is not the API's model list.
    ParseFailed(String),
    /// The model list.
    Parsed(Vec<ApiModel>),
}

/// The error of a failed fetch.
pub open spec fn fetch_error_text(f: ModelsFetch) -> Seq<char> {
    match f {
        ModelsFetch::NoKey => "GEMINI_API_KEY not configured"@,
        ModelsFetch::ClientFailed(e) => "Failed to create HTTP client: "@ + e@,
        ModelsFetch::SendFailed(e) => "API request failed: "@ + e@,
        ModelsFetch::HttpError { status, body } => "API error HTTP "@ + status@ + ": "@ + body@,
        ModelsFetch::ReadFailed(e) => "Failed to read response: "@ + e@,
        ModelsFetch::ParseFailed(e) => "Failed to parse API response: "@ + e@,
        ModelsFetch::Parsed(_) => Seq::<char>::empty(),
    }
}

/// Refresh the cache from what the fetch gave at `now_ms`: the models that
/// support `generateContent` are stored (and answered); a failed fetch is
/// answered with its error and leaves the cache as it was.
pub fn refresh_models(cache: &mut ModelCache, fetch: ModelsFetch, now_ms: i64) -> (r: Result<Vec<ModelDef>, String>)
    ensures
        match fetch {
            ModelsFetch::Parsed(api) => r matches Ok(m) && models_view(m@) == api_models_defs(api@)
                && models_view(final(cache).models@) == api_models_defs(api@)
                && final(cache).fetched_at_ms == Some(now_ms) && final(cache).fetch_error is None,
            _ => r matches Err(e) && e@ == fetch_error_text(fetch) && *final(cache) == *old(cache),
        },
{
    match fetch {
        ModelsFetch::NoKey => Err(String::from_str("GEMINI_API_KEY not configured")),
        ModelsFetch::ClientFailed(e) => Err(String::from_str("Failed to create HTTP client: ").concat(e.as_str())),
        ModelsFetch::SendFailed(e) => Err(String::from_str("API request failed: ").concat(e.as_str())),
        ModelsFetch::HttpError { status, body } => Err(
            String::from_str("API error HTTP ").concat(status.as_str()).concat(": ").concat(body.as_str()),
        ),
        ModelsFetch::ReadFailed(e) => Err(String::from_str("Failed to read response: ").concat(e.as_str())),
        ModelsFetch::ParseFailed(e) => Err(String::from_str("Failed to parse API response: ").concat(e.as_str())),
        ModelsFetch::Parsed(api) => {
            let models = models_from_api(&api);
            let answer = clone_models(&models);
            cache.store(models, now_ms);
            Ok(answer)
        },
    }
}

/// Whether the cached models are answered without a fetch: the cache is
/// filled and not out of date at `now_ms`.
pub fn cache_is_fresh(cache: &ModelCache, now_ms: i64) -> (b: bool)
    ensures
        b == (!expired_at(cache.fetched_at_ms, now_ms) && cache.models@.len() > 0),
{
    !cache.is_expired(now_ms) && cache.models.len() > 0
}

/// The models of a refresh, or, when it failed, the static list (which
/// is empty), the error being recorded in the cache.
pub fn models_after_refresh(cache: &mut ModelCache, refreshed: Result<Vec<ModelDef>, String>) -> (r: Vec<
    ModelDef,
>)
    ensures
        refreshed is Ok ==> r@ == refreshed->Ok_0@ && final(cache).models@ == old(cache).models@
            && final(cache).fetched_at_ms == old(cache).fetched_at_ms && final(cache).fetch_error
            == old(cache).fetch_error,
        refreshed is Err ==> r@.len() == 0 && final(cache).models@ == old(cache).models@
            && final(cache).fetched_at_ms == old(cache).fetched_at_ms && final(cache).fetch_error
            == Some(refreshed->Err_0),
{
    match refreshed {
        Ok(m) => m,
        Err(e) => {
            cache.record_fetch_error(e);
            let config = get_config();
            let r = clone_models(&config.models);
            assert(models_view(r@).len() == r@.len());
            r
        },
    }
}

} // verus!
