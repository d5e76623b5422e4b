use code_core::model_url::{
    base_or_default, invalid_base_message, models_path, models_query, models_url, positions_fit,
    ModelsUrlError,
};
use code_core::models_manager::{
    Caller, ModelsCache, ModelsReply, ModelsRequest, RemoteModelsManager, RemoteProvider,
};
use code_core::protocol::{
    ApplyPatchToolType, ModelFamily, ReasoningEffort, ReasoningSummary, TruncationPolicy,
    WebSearchToolType,
};
use code_core::remote_models::{
    apply_model_info_overrides, apply_model_info_overrides_with_personality,
    find_remote_model_info, map_reasoning_effort, map_truncation_policy, namespaced_model_suffix,
    InputModality, ModelInfo, ModelMessages, ModelReasoningLevel, Personality, TruncationMode,
    TruncationPolicyConfig,
};
use code_core::time::Timestamp;

fn model(slug: &str) -> ModelInfo {
    ModelInfo {
        slug: slug.to_string(),
        base_instructions: String::new(),
        model_messages: None,
        default_reasoning_level: None,
        context_window: None,
        apply_patch_tool_type: None,
        web_search_tool_type: WebSearchToolType::Text,
        supports_image_detail_original: false,
        input_modalities: vec![InputModality::Text, InputModality::Image],
        additional_speed_tiers: Vec::new(),
        supports_search_tool: false,
        auto_compact_token_limit: None,
        truncation_policy: TruncationPolicyConfig { mode: TruncationMode::Bytes, limit: 10_000 },
        supports_reasoning_summaries: false,
        supports_parallel_tool_calls: false,
        use_responses_lite: false,
        prefer_websockets: false,
        default_reasoning_summary: ReasoningSummary::Auto,
    }
}

fn family(slug: &str) -> ModelFamily {
    ModelFamily {
        slug: slug.to_string(),
        base_instructions: "built-in".to_string(),
        context_window: Some(1),
        max_output_tokens: Some(2),
        auto_compact_token_limit: Some(3),
        truncation_policy: TruncationPolicy::Tokens(4),
        apply_patch_tool_type: None,
        web_search_tool_type: WebSearchToolType::Text,
        uses_local_shell_tool: false,
        uses_shell_command_tool: true,
        supports_image_detail_original: false,
        supports_image_generation: true,
        additional_speed_tiers: Vec::new(),
        supports_search_tool: false,
        supports_reasoning_summaries: false,
        supports_parallel_tool_calls: true,
        use_responses_lite: false,
        prefer_websockets: false,
        default_reasoning_effort: Some(ReasoningEffort::Low),
        default_reasoning_summary: ReasoningSummary::Auto,
    }
}

#[test]
fn find_remote_model_info_matches_namespaced_suffix() {
    let models = vec![model("gpt-5.3-codex")];

    let found = find_remote_model_info(&models, "custom/gpt-5.3-codex")
        .expect("namespaced slug should resolve");

    assert_eq!(found.slug, "gpt-5.3-codex");
}

#[test]
fn find_remote_model_info_matches_hyphenated_namespace_suffix() {
    let models = vec![model("gpt-5.3-codex")];

    let found = find_remote_model_info(&models, "custom-provider/gpt-5.3-codex")
        .expect("hyphenated provider namespace should resolve");

    assert_eq!(found.slug, "gpt-5.3-codex");
}

#[test]
fn find_remote_model_info_rejects_multi_segment_namespace() {
    let models = vec![model("gpt-5.3-codex")];

    assert!(find_remote_model_info(&models, "foo/bar/gpt-5.3-codex").is_none());
}

#[test]
fn image_generation_support_tracks_image_input_modality() {
    let mut known = family("gpt-5.4");
    known.supports_image_generation = false;
    let mut info = model("gpt-5.4");
    info.input_modalities = vec![InputModality::Text, InputModality::Image];

    let known = apply_model_info_overrides_with_personality(&info, known, None);

    assert!(known.supports_image_generation);

    let mut text_only_info = info;
    text_only_info.input_modalities = vec![InputModality::Text];
    let text_only_family =
        apply_model_info_overrides_with_personality(&text_only_info, family("gpt-5.4"), None);

    assert!(!text_only_family.supports_image_generation);
}

// ---------------------------------------------------------------------------
// Which model is meant

#[test]
fn longest_slug_is_meant_and_the_very_name_before_all() {
    let models = vec![model("gpt"), model("gpt-5.5-mini"), model("GPT-5.5"), model("gpt-5")];
    let slug = |name: &str| find_remote_model_info(&models, name).map(|m| m.slug.clone());
    assert_eq!(slug("gpt-5.5"), Some("GPT-5.5".to_string()));
    assert_eq!(slug("gpt-5.4"), Some("gpt-5".to_string()));
    assert_eq!(slug("gpt-4"), Some("gpt".to_string()));
    assert_eq!(slug("other"), None);
    let twice = vec![model("a"), model("A")];
    assert_eq!(find_remote_model_info(&twice, "a").map(|m| m.slug.as_str()), Some("A"));
}

#[test]
fn namespace_is_plain() {
    assert_eq!(namespaced_model_suffix("a_b-1/x"), Some("x".to_string()));
    assert_eq!(namespaced_model_suffix("/x"), Some("x".to_string()));
    assert_eq!(namespaced_model_suffix("a/"), Some(String::new()));
    assert_eq!(namespaced_model_suffix("a.b/x"), None);
    assert_eq!(namespaced_model_suffix("a/b/x"), None);
    assert_eq!(namespaced_model_suffix("x"), None);
}

#[test]
fn model_changes_what_is_known_of_its_family() {
    let mut info = model("gpt-5.2");
    info.base_instructions = "REMOTE INSTRUCTIONS".to_string();
    info.default_reasoning_level = Some(ModelReasoningLevel::High);
    info.apply_patch_tool_type = Some(ApplyPatchToolType::Function);
    info.context_window = Some(12_345);
    info.additional_speed_tiers = vec!["fast".to_string()];
    let known = apply_model_info_overrides(&info, family("gpt-5.2"));
    assert_eq!(known.base_instructions, "REMOTE INSTRUCTIONS");
    assert_eq!(known.context_window, Some(12_345));
    assert_eq!(known.apply_patch_tool_type, Some(ApplyPatchToolType::Function));
    assert_eq!(known.default_reasoning_effort, Some(ReasoningEffort::High));
    assert_eq!(known.truncation_policy, TruncationPolicy::Bytes(10_000));
    assert_eq!(known.additional_speed_tiers, vec!["fast".to_string()]);
    assert!(!known.supports_parallel_tool_calls);
    // What the model does not speak of stays.
    assert_eq!(known.max_output_tokens, Some(2));
    assert_eq!(known.auto_compact_token_limit, Some(3));
    assert!(known.uses_shell_command_tool);

    let mut blank = model("x");
    blank.base_instructions = "  ".to_string();
    blank.context_window = Some(0);
    let known = apply_model_info_overrides(&blank, family("x"));
    assert_eq!(known.base_instructions, "built-in");
    assert_eq!(known.context_window, Some(1));
    assert_eq!(known.default_reasoning_effort, Some(ReasoningEffort::Low));
}

#[test]
fn personality_picks_the_instructions() {
    let mut info = model("x");
    info.base_instructions = "base".to_string();
    info.model_messages = Some(ModelMessages {
        unspecified: "any".to_string(),
        no_personality: "none".to_string(),
        friendly: "friendly".to_string(),
        pragmatic: "pragmatic".to_string(),
    });
    let told = |p: Option<Personality>| {
        apply_model_info_overrides_with_personality(&info, family("x"), p).base_instructions
    };
    assert_eq!(told(None), "any");
    assert_eq!(told(Some(Personality::NoPersonality)), "none");
    assert_eq!(told(Some(Personality::Friendly)), "friendly");
    assert_eq!(told(Some(Personality::Pragmatic)), "pragmatic");
}

#[test]
fn levels_and_limits_are_mapped() {
    let pairs = [
        (ModelReasoningLevel::NoReasoning, ReasoningEffort::NoReasoning),
        (ModelReasoningLevel::Minimal, ReasoningEffort::Minimal),
        (ModelReasoningLevel::Low, ReasoningEffort::Low),
        (ModelReasoningLevel::Medium, ReasoningEffort::Medium),
        (ModelReasoningLevel::High, ReasoningEffort::High),
        (ModelReasoningLevel::XHigh, ReasoningEffort::XHigh),
        (ModelReasoningLevel::Max, ReasoningEffort::XHigh),
        (ModelReasoningLevel::Ultra, ReasoningEffort::XHigh),
        (ModelReasoningLevel::Persistent, ReasoningEffort::XHigh),
        (ModelReasoningLevel::Custom("x".to_string()), ReasoningEffort::Medium),
    ];
    for (level, effort) in pairs {
        assert_eq!(map_reasoning_effort(&level), effort);
    }
    let cut = |mode: TruncationMode, limit: i64| {
        map_truncation_policy(&TruncationPolicyConfig { mode, limit })
    };
    assert_eq!(cut(TruncationMode::Tokens, 5), TruncationPolicy::Tokens(5));
    assert_eq!(cut(TruncationMode::Bytes, -1), TruncationPolicy::Bytes(usize::MAX));
}

// ---------------------------------------------------------------------------
// The address

#[test]
fn address_of_the_list() {
    let params = Some(vec![("api version".to_string(), "1&2".to_string())]);
    assert_eq!(
        models_url(&Some("https://x.example/v1//?a=b".to_string()), &params, false, "1.2"),
        Ok("https://x.example/v1/models?a=b&api+version=1%262&client_version=1.2".to_string())
    );
    assert_eq!(
        models_url(&None, &None, true, "1.2"),
        Ok("https://chatgpt.com/backend-api/codex/models?client_version=1.2".to_string())
    );
    assert_eq!(
        models_url(&None, &None, false, "1.2"),
        Ok("https://api.openai.com/v1/models?client_version=1.2".to_string())
    );
    assert_eq!(
        models_url(&Some("no address".to_string()), &None, false, "1.2"),
        Err(ModelsUrlError::InvalidBase(
            "invalid models base_url no address: relative URL without a base".to_string()
        ))
    );
    let long = "a".repeat(16_000_001);
    let params = Some(vec![("k".to_string(), long.clone())]);
    let base = Some("https://x.example/#f".to_string());
    assert_eq!(
        models_url(&base, &params, false, "1.2"),
        Ok(format!("https://x.example/models?k={long}&client_version=1.2#f"))
    );
    assert_eq!(
        models_url(&Some("data:".to_string()), &None, false, "é"),
        Ok("data:%2Fmodels?client_version=%C3%A9".to_string())
    );
    assert_eq!(ModelsUrlError::TooLong.message(), "models address is too long");
}

#[test]
fn positions_in_an_address_have_32_bits() {
    let last = u128::from(u32::MAX);
    assert!(positions_fit(last, last, None));
    assert!(positions_fit(last, last, Some(last)));
    assert!(!positions_fit(last + 1, 0, None));
    assert!(!positions_fit(0, last + 1, None));
    assert!(!positions_fit(0, 0, Some(last + 1)));
}

#[test]
fn parts_of_the_address() {
    assert_eq!(models_path("/v1/"), "/v1/models");
    assert_eq!(models_path("/"), "/models");
    assert_eq!(base_or_default(&Some("x".to_string()), true), "x");
    assert_eq!(invalid_base_message("b", "why"), "invalid models base_url b: why");
    assert_eq!(
        models_query(&Some(vec![("k".to_string(), "v".to_string())]), "9"),
        vec![
            ("k".to_string(), "v".to_string()),
            ("client_version".to_string(), "9".to_string())
        ]
    );
}

// ---------------------------------------------------------------------------
// The list

fn provider(base_url: &str) -> RemoteProvider {
    RemoteProvider {
        base_url: Some(base_url.to_string()),
        query_params: None,
        has_command_auth: false,
    }
}

fn caller(identity: Option<&str>) -> Caller {
    Caller {
        uses_codex_backend: true,
        account_id: Some("account".to_string()),
        identity: identity.map(str::to_string),
    }
}

fn manager() -> RemoteModelsManager {
    RemoteModelsManager::new(provider("http://127.0.0.1:1"), "/home/x/.code".to_string())
}

fn ts(text: &str) -> Timestamp {
    Timestamp::parse(text).expect("a time")
}

fn reply(status: u16, etag: Option<&str>, models: Option<Vec<ModelInfo>>) -> Option<ModelsReply> {
    Some(ModelsReply { status, etag: etag.map(str::to_string), models })
}

const NOW: &str = "2026-02-01T00:00:00Z";

#[test]
fn fresh_list_is_not_asked_for_again() {
    let mut m = manager();
    assert_eq!((m.cache_ttl_secs, m.cache_ttl_nanos), (300, 0));
    let request = m.refresh_remote_models(&caller(Some("me")), None, false, "1.0").expect("asks");
    assert_eq!(
        request,
        ModelsRequest {
            url: "http://127.0.0.1:1/models?client_version=1.0".to_string(),
            if_none_match: None,
            account_id: Some("account".to_string()),
            timeout_secs: 10,
        }
    );
    let saved = m.take_answer_at(
        Some("me"),
        Some("me"),
        reply(200, Some("etag-1"), Some(vec![model("cached")])),
        ts(NOW),
    );
    let saved = saved.expect("kept");
    assert_eq!(saved.identity, Some("me".to_string()));
    assert_eq!(saved.etag, Some("etag-1".to_string()));
    assert_eq!(saved.fetched_at, ts(NOW));
    let models = m.remote_models_snapshot(&caller(Some("me")), None);
    assert_eq!(models.len(), 1);
    assert_eq!(models[0].slug, "cached");

    assert_eq!(m.refresh_remote_models(&caller(Some("me")), None, true, "1.0"), None);
    // Without an identity nothing is kept, and the list is never good.
    let mut anonymous = manager();
    assert!(anonymous.refresh_remote_models(&caller(None), None, true, "1.0").is_some());
    assert_eq!(
        anonymous.take_answer_at(None, None, reply(200, None, Some(vec![model("a")])), ts(NOW)),
        None
    );
    assert!(anonymous.refresh_remote_models(&caller(None), None, true, "1.0").is_some());
    assert_eq!(anonymous.remote_models_snapshot(&caller(None), None).len(), 1);
}

fn kept(identity: &str, etag: &str, slug: &str) -> ModelsCache {
    ModelsCache {
        fetched_at: ts("2026-01-31T23:00:00Z"),
        etag: Some(etag.to_string()),
        identity: Some(identity.to_string()),
        models: vec![model(slug)],
    }
}

#[test]
fn kept_list_is_not_shown_to_another() {
    let mut m = manager();
    assert!(m.wants_cache(Some("me")));
    assert!(!m.wants_cache(None));
    let cache = Some(kept("them", "e", "theirs"));
    assert!(m.remote_models_snapshot(&caller(Some("me")), cache).is_empty());
    assert!(!m.wants_cache(Some("me")));

    let mut n = manager();
    assert_eq!(n.remote_models_snapshot(&caller(Some("me")), Some(kept("me", "e", "mine"))).len(), 1);
    assert_eq!(n.get_etag(Some("me")), Some("e".to_string()));
    assert_eq!(n.get_etag(Some("them")), None);
    assert!(n.remote_models_snapshot(&caller(Some("them")), None).is_empty());
    assert!(n.remote_models_snapshot(&caller(Some("me")), None).is_empty());
}

#[test]
fn stale_list_is_fetched_again() {
    let mut m = manager();
    let me = caller(Some("me"));
    let request = m
        .refresh_remote_models_with_cache(&me, Some(kept("me", "etag-stale", "stale")), false, "1")
        .expect("asks");
    assert_eq!(request.if_none_match, Some("etag-stale".to_string()));
    m.take_answer(
        Some("me"),
        Some("me"),
        reply(200, Some("etag-fresh"), Some(vec![model("fresh")])),
    );
    let models = m.remote_models_snapshot(&me, None);
    assert_eq!(models.len(), 1);
    assert_eq!(models[0].slug, "fresh");
}

#[test]
fn unchanged_list_stays() {
    let mut m = manager();
    let me = caller(Some("me"));
    let request = m
        .refresh_remote_models_no_cache(&me, Some(kept("me", "etag-304", "cached")), "1")
        .expect("asks");
    assert_eq!(request.if_none_match, Some("etag-304".to_string()));
    let saved = m.take_answer_at(Some("me"), Some("me"), reply(304, None, None), ts(NOW));
    let saved = saved.expect("kept");
    assert_eq!(saved.fetched_at, ts(NOW));
    assert_eq!(saved.etag, Some("etag-304".to_string()));
    let models = m.remote_models_snapshot(&me, None);
    assert_eq!(models.len(), 1);
    assert_eq!(models[0].slug, "cached");
    // One who starts anew finds what was kept.
    let mut again = manager();
    assert_eq!(again.remote_models_snapshot(&me, Some(saved))[0].slug, "cached");
    assert_eq!(again.state.fetched_at, Some(ts(NOW)));
}

#[test]
fn failures_leave_the_list() {
    let me = caller(Some("me"));
    for bad in [
        None,
        reply(500, None, Some(vec![model("x")])),
        reply(199, None, Some(vec![model("x")])),
        reply(300, None, Some(vec![model("x")])),
        reply(200, Some("e2"), None),
    ] {
        let mut m = manager();
        m.remote_models_snapshot(&me, Some(kept("me", "e", "mine")));
        assert_eq!(m.take_answer_at(Some("me"), Some("me"), bad, ts(NOW)), None);
        assert_eq!(m.remote_models_snapshot(&me, None)[0].slug, "mine");
        assert_eq!(m.get_etag(Some("me")), Some("e".to_string()));
    }
    let mut m = manager();
    m.remote_models_snapshot(&me, Some(kept("me", "e", "mine")));
    let late = reply(200, None, Some(vec![model("x")]));
    assert_eq!(m.take_answer_at(Some("me"), Some("them"), late, ts(NOW)), None);
    assert_eq!(m.remote_models_snapshot(&me, None)[0].slug, "mine");
}

#[test]
fn blank_tag_is_not_kept() {
    let mut m = manager();
    let me = caller(Some("me"));
    m.remote_models_snapshot(&me, None);
    let saved = m
        .take_answer_at(Some("me"), Some("me"), reply(299, Some(" "), Some(vec![])), ts(NOW))
        .expect("kept");
    assert_eq!(saved.etag, None);
}

#[test]
fn new_tag_asks_for_the_list() {
    let mut m = manager();
    let me = caller(Some("me"));
    m.remote_models_snapshot(&me, Some(kept("me", "e", "mine")));
    assert_eq!(m.refresh_if_new_etag(&me, None, "e", "1"), None);
    let request = m.refresh_if_new_etag(&me, None, "f", "1").expect("asks");
    assert_eq!(request.if_none_match, Some("e".to_string()));
}

#[test]
fn only_some_may_ask() {
    let mut m = manager();
    let mut who = caller(Some("me"));
    who.uses_codex_backend = false;
    assert_eq!(m.refresh_remote_models_no_cache(&who, None, "1"), None);
    m.provider.has_command_auth = true;
    let request = m.refresh_remote_models_no_cache(&who, None, "1").expect("asks");
    assert_eq!(request.account_id, None);
    m.provider.base_url = Some("::".to_string());
    assert_eq!(m.refresh_remote_models_no_cache(&who, None, "1"), None);
}

#[test]
fn default_model_is_the_balanced_one() {
    let mut m = manager();
    let me = caller(Some("me"));
    m.remote_models_snapshot(&me, Some(kept("me", "e", "codex-auto-balanced")));
    assert_eq!(
        m.default_model_slug(&me, None, true),
        Some("codex-auto-balanced".to_string())
    );
    assert_eq!(m.default_model_slug(&me, None, false), None);
    assert!(m.has_model_slug(&me, None, "CODEX-auto-balanced"));
    assert!(!m.has_model_slug(&me, None, "codex-auto"));
}

#[test]
fn family_is_made_of_what_is_known_and_what_is_offered() {
    let mut m = manager().with_cache_ttl(0, 500_000_000);
    assert_eq!((m.cache_ttl_secs, m.cache_ttl_nanos), (0, 500_000_000));
    assert_eq!(m.cache_path().parts, vec!["models_cache.json"]);
    let me = caller(Some("me"));
    let mut cache = kept("me", "e", "gpt-5.2");
    cache.models[0].base_instructions = "REMOTE INSTRUCTIONS".to_string();
    cache.models[0].context_window = Some(12_345);
    let made = m.construct_model_family(&me, Some(cache), "gpt-5.2", None, family("usual"));
    assert_eq!(made.slug, "usual");
    assert_eq!(made.base_instructions, "REMOTE INSTRUCTIONS");
    assert_eq!(made.context_window, Some(12_345));
    let known = Some(family("known"));
    let made = m.construct_model_family(&me, None, "other", known, family("usual"));
    assert_eq!(made, family("known"));
    let made = m.apply_remote_overrides(&me, None, "x/gpt-5.2", family("f"));
    assert_eq!(made.base_instructions, "REMOTE INSTRUCTIONS");
}
