//! What a provider says of a model, which model is meant, and what is asked and kept.

use crate::models_manager::{
    answer_taken, is_fresh, loaded, offers, offers_any_case, request_of, with_overrides, CacheView,
    Caller, ModelsCache, ModelsReply, RemoteModelsManager, RemoteModelsState, RemoteProvider,
    StateView,
};
use crate::model_url::{
    base_text, encoded_size, fits, invalid_base, length_before, models_address, models_pairs,
    models_path_text, pairs_size, url_path, url_text, url_with,
};
use crate::protocol::{ModelFamily, ReasoningEffort, TruncationPolicy};
use crate::remote_models::{
    any_named, best_at, effort_of, is_named, meant, namespace_ends, namespaced_suffix, overridden,
    same_info, slug_size, InputModality, ModelInfo, ModelReasoningLevel, Personality,
    TruncationMode,
};
use crate::text::{ascii_lower_text, opt_text, strip_end, texts, trim_text};
use crate::time::Timestamp;
use vstd::prelude::*;
use vstd::utf8::encode_utf8;

verus! {

/// What a provider says of a model replaces what was known of its family, and what it
/// leaves open stays as it was known.
pub proof fn providers_have_the_last_word(
    info: ModelInfo,
    personality: Option<Personality>,
    before: ModelFamily,
    after: ModelFamily,
)
    requires
        overridden(info, personality, before, after),
    ensures
        info.auto_compact_token_limit is Some ==> after.auto_compact_token_limit
            == info.auto_compact_token_limit,
        info.auto_compact_token_limit is None ==> after.auto_compact_token_limit
            == before.auto_compact_token_limit,
        info.context_window matches Some(w) ==> w > 0 ==> after.context_window == Some(w as u64),
        info.context_window matches Some(w) ==> w <= 0 ==> after.context_window
            == before.context_window,
        info.context_window is None ==> after.context_window == before.context_window,
        info.apply_patch_tool_type is Some ==> after.apply_patch_tool_type
            == info.apply_patch_tool_type,
        info.apply_patch_tool_type is None ==> after.apply_patch_tool_type
            == before.apply_patch_tool_type,
        info.default_reasoning_level is None ==> after.default_reasoning_effort
            == before.default_reasoning_effort,
        info.default_reasoning_level is Some ==> after.default_reasoning_effort is Some,
        after.web_search_tool_type == info.web_search_tool_type,
        after.supports_image_detail_original == info.supports_image_detail_original,
        after.supports_image_generation <==> exists|i: int|
            0 <= i < info.input_modalities@.len() && #[trigger] info.input_modalities@[i]
                == InputModality::Image,
        texts(after.additional_speed_tiers@) == texts(info.additional_speed_tiers@),
        after.supports_search_tool == info.supports_search_tool,
        after.supports_reasoning_summaries == info.supports_reasoning_summaries,
        after.supports_parallel_tool_calls == info.supports_parallel_tool_calls,
        after.use_responses_lite == info.use_responses_lite,
        after.prefer_websockets == info.prefer_websockets,
        after.default_reasoning_summary == info.default_reasoning_summary,
        after.slug@ == before.slug@,
        after.max_output_tokens == before.max_output_tokens,
        after.uses_local_shell_tool == before.uses_local_shell_tool,
        after.uses_shell_command_tool == before.uses_shell_command_tool,
{
    if after.supports_image_generation {
        let i = choose|i: int|
            0 <= i < info.input_modalities@.len() && info.input_modalities@[i]
                == InputModality::Image;
        assert(info.input_modalities@[i] == InputModality::Image);
    }
}

/// A model is told what the provider has for the manner that was asked for, else what it
/// has for all; where that is blank, what was known of the family.
pub proof fn models_are_told_in_the_manner_asked_for(
    info: ModelInfo,
    personality: Option<Personality>,
    before: ModelFamily,
    after: ModelFamily,
    text: Seq<char>,
)
    requires
        overridden(info, personality, before, after),
        ({
            ||| info.model_messages is None && text == info.base_instructions@
            ||| info.model_messages is Some && personality is None && text
                == info.model_messages->0.unspecified@
            ||| info.model_messages is Some && personality == Some(Personality::NoPersonality)
                && text == info.model_messages->0.no_personality@
            ||| info.model_messages is Some && personality == Some(Personality::Friendly) && text
                == info.model_messages->0.friendly@
            ||| info.model_messages is Some && personality == Some(Personality::Pragmatic) && text
                == info.model_messages->0.pragmatic@
        }),
    ensures
        trim_text(text).len() > 0 ==> after.base_instructions@ == text,
        trim_text(text).len() == 0 ==> after.base_instructions@ == before.base_instructions@,
{
}

/// How much a model reasons is understood as it is said. More than this program knows of
/// is the most that it knows of, and what it does not know is the middle.
pub proof fn reasoning_is_understood(level: ModelReasoningLevel)
    ensures
        level is NoReasoning ==> effort_of(level) == ReasoningEffort::NoReasoning,
        level is Minimal ==> effort_of(level) == ReasoningEffort::Minimal,
        level is Low ==> effort_of(level) == ReasoningEffort::Low,
        level is Medium ==> effort_of(level) == ReasoningEffort::Medium,
        level is High ==> effort_of(level) == ReasoningEffort::High,
        level is XHigh || level is Max || level is Ultra || level is Persistent ==> effort_of(level)
            == ReasoningEffort::XHigh,
        level is Custom ==> effort_of(level) == ReasoningEffort::Medium,
{
}

/// How much the family reasons is what the provider says, as it is understood, and how
/// output is cut too.
pub proof fn levels_and_cuts_are_taken_over(
    info: ModelInfo,
    personality: Option<Personality>,
    before: ModelFamily,
    after: ModelFamily,
)
    requires
        overridden(info, personality, before, after),
    ensures
        info.default_reasoning_level matches Some(level) ==> after.default_reasoning_effort == Some(
            effort_of(level),
        ),
        info.truncation_policy.mode == TruncationMode::Bytes ==> after.truncation_policy is Bytes,
        info.truncation_policy.mode == TruncationMode::Tokens ==> after.truncation_policy is Tokens,
        ({
            let said = info.truncation_policy.limit;
            let cut = match after.truncation_policy {
                TruncationPolicy::Bytes(n) => n,
                TruncationPolicy::Tokens(n) => n,
            };
            &&& 0 <= said <= usize::MAX ==> cut == said
            &&& said < 0 ==> cut == usize::MAX
            &&& said > usize::MAX ==> cut == usize::MAX
        }),
{
}

// ---------------------------------------------------------------------------
// Which model is meant

/// The name begins with the slug.
pub open spec fn begins_with(name: Seq<char>, slug: Seq<char>) -> bool {
    slug.len() <= name.len() && forall|i: int| 0 <= i < slug.len() ==> name[i] == #[trigger] slug[i]
}

proof fn named_is_raw(slug: Seq<char>, name: Seq<char>)
    ensures
        is_named(slug, name) <==> ascii_lower_text(name) == ascii_lower_text(slug) || begins_with(
            name,
            slug,
        ),
{
    if begins_with(name, slug) {
        assert(name.subrange(0, slug.len() as int) =~= slug);
    }
    if crate::text::starts(name, slug) {
        assert forall|i: int| 0 <= i < slug.len() implies name[i] == #[trigger] slug[i] by {
            assert(name.subrange(0, slug.len() as int)[i] == name[i]);
        }
    }
}

/// A model that is meant by its whole name has that name, letter case aside, or a slug
/// that the name begins with; no other such model has a longer slug, and none behind it
/// one that is as long.
pub proof fn longest_slug_is_meant(models: Seq<ModelInfo>, name: Seq<char>, best: int, j: int)
    requires
        best_at(models, name, best),
    ensures
        0 <= best < models.len(),
        ascii_lower_text(name) == ascii_lower_text(models[best].slug@) || begins_with(
            name,
            models[best].slug@,
        ),
        0 <= j < models.len() && (ascii_lower_text(name) == ascii_lower_text(models[j].slug@)
            || begins_with(name, models[j].slug@)) ==> {
            &&& encode_utf8(models[j].slug@).len() as usize <= encode_utf8(
                models[best].slug@,
            ).len() as usize
            &&& encode_utf8(models[j].slug@).len() as usize == encode_utf8(
                models[best].slug@,
            ).len() as usize ==> j <= best
        },
{
    named_is_raw(models[best].slug@, name);
    if 0 <= j < models.len() {
        named_is_raw(models[j].slug@, name);
        assert(is_named(models[j].slug@, name) ==> slug_size(models[j].slug@) <= slug_size(
            models[best].slug@,
        ));
    }
}

proof fn some_is_best(models: Seq<ModelInfo>, name: Seq<char>) -> (best: int)
    requires
        any_named(models, name),
    ensures
        best_at(models, name, best),
    decreases models.len(),
{
    let rest = models.drop_last();
    let last = models.len() - 1;
    let w = choose|i: int| 0 <= i < models.len() && is_named(#[trigger] models[i].slug@, name);
    if any_named(rest, name) {
        let b = some_is_best(rest, name);
        assert(rest[b] == models[b]);
        let r = if is_named(models[last].slug@, name) && slug_size(models[b].slug@) <= slug_size(
            models[last].slug@,
        ) {
            last
        } else {
            b
        };
        assert forall|j: int|
            0 <= j < models.len() && is_named(#[trigger] models[j].slug@, name) implies slug_size(
            models[j].slug@,
        ) <= slug_size(models[r].slug@) by {
            if j < last {
                assert(is_named(rest[j].slug@, name));
            }
        }
        assert forall|j: int|
            r < j < models.len() && is_named(#[trigger] models[j].slug@, name) implies slug_size(
            models[j].slug@,
        ) < slug_size(models[r].slug@) by {
            if j < last {
                assert(is_named(rest[j].slug@, name));
            }
        }
        r
    } else {
        assert(w == last) by {
            if w < last {
                assert(is_named(rest[w].slug@, name));
            }
        }
        assert forall|j: int| 0 <= j < last implies !is_named(#[trigger] models[j].slug@, name) by {
            assert(models[j] == rest[j]);
            assert(!is_named(rest[j].slug@, name));
        }
        last
    }
}

/// Where a model has the name, or a slug that it begins with, one is meant, and the whole
/// name says which.
pub proof fn named_models_are_found(models: Seq<ModelInfo>, name: Seq<char>, j: int)
    requires
        0 <= j < models.len(),
        ascii_lower_text(name) == ascii_lower_text(models[j].slug@) || begins_with(
            name,
            models[j].slug@,
        ),
    ensures
        exists|i: int| meant(models, name, i),
        forall|i: int| #[trigger] meant(models, name, i) ==> best_at(models, name, i),
{
    named_is_raw(models[j].slug@, name);
    assert(any_named(models, name));
    let b = some_is_best(models, name);
    assert(meant(models, name, b));
}

/// Where no model has the whole name, what stands behind its namespace says which model is
/// meant: behind its one slash, where only letters, digits, underscores and hyphens stand
/// before that.
pub proof fn namespaces_are_set_aside(
    models: Seq<ModelInfo>,
    namespace: Seq<char>,
    suffix: Seq<char>,
    i: int,
)
    requires
        forall|k: int|
            0 <= k < namespace.len() ==> {
                let c = #[trigger] namespace[k];
                'a' <= c <= 'z' || 'A' <= c <= 'Z' || '0' <= c <= '9' || c == '_' || c == '-'
            },
        forall|k: int| 0 <= k < suffix.len() ==> #[trigger] suffix[k] != '/',
        !any_named(models, namespace + seq!['/'] + suffix),
    ensures
        meant(models, namespace + seq!['/'] + suffix, i) <==> best_at(models, suffix, i),
{
    let name = namespace + seq!['/'] + suffix;
    let n = namespace.len() as int;
    assert(namespace_ends(name, n)) by {
        assert(name[n] == '/');
        assert forall|k: int| 0 <= k < n implies crate::remote_models::is_namespace_char(
            #[trigger] name[k],
        ) by {
            assert(name[k] == namespace[k]);
        }
        assert forall|k: int| n < k < name.len() implies #[trigger] name[k] != '/' by {
            assert(name[k] == suffix[k - n - 1]);
        }
    }
    let m = choose|m: int| namespace_ends(name, m);
    assert(m == n) by {
        if m < n {
            assert(crate::remote_models::is_namespace_char(name[m]));
        }
    }
    assert(name.skip(n + 1) =~= suffix);
}

/// A name without a slash, or with several, has no namespace; nor has one with another
/// sign before its slash.
pub proof fn other_names_have_no_namespace(name: Seq<char>)
    requires
        (forall|k: int| 0 <= k < name.len() ==> #[trigger] name[k] != '/') || (exists|a: int, b: int|
            0 <= a < b < name.len() && #[trigger] name[a] == '/' && #[trigger] name[b] == '/') || (
        exists|a: int, b: int|
            0 <= a < b < name.len() && #[trigger] name[b] == '/' && {
                let c = #[trigger] name[a];
                !('a' <= c <= 'z' || 'A' <= c <= 'Z' || '0' <= c <= '9' || c == '_' || c == '-')
            }),
    ensures
        namespaced_suffix(name) is None,
{
    if exists|i: int| namespace_ends(name, i) {
        let i = choose|i: int| namespace_ends(name, i);
        assert(name[i] == '/');
        assert forall|j: int| 0 <= j < i implies crate::remote_models::is_namespace_char(
            #[trigger] name[j],
        ) && name[j] != '/' by {}
        assert forall|j: int| i < j < name.len() implies #[trigger] name[j] != '/' by {}
        if exists|a: int, b: int|
            0 <= a < b < name.len() && #[trigger] name[a] == '/' && #[trigger] name[b] == '/' {
            let (a, b) = choose|a: int, b: int|
                0 <= a < b < name.len() && #[trigger] name[a] == '/' && #[trigger] name[b] == '/';
            assert(a >= i && b <= i);
        } else if exists|a: int, b: int|
            0 <= a < b < name.len() && #[trigger] name[b] == '/' && {
                let c = #[trigger] name[a];
                !('a' <= c <= 'z' || 'A' <= c <= 'Z' || '0' <= c <= '9' || c == '_' || c == '-')
            } {
            let (a, b) = choose|a: int, b: int|
                0 <= a < b < name.len() && #[trigger] name[b] == '/' && {
                    let c = #[trigger] name[a];
                    !('a' <= c <= 'z' || 'A' <= c <= 'Z' || '0' <= c <= '9' || c == '_' || c == '-')
                };
            assert(b == i);
            assert(crate::remote_models::is_namespace_char(name[a]));
        }
    }
}

/// What is known of a family changes just where a model is meant, and then as that model
/// says.
pub proof fn families_change_by_the_model_that_is_meant(
    models: Seq<ModelInfo>,
    model: Seq<char>,
    personality: Option<Personality>,
    before: ModelFamily,
    after: ModelFamily,
)
    requires
        with_overrides(models, model, personality, before, after),
    ensures
        (forall|i: int| !meant(models, model, i)) ==> after == before,
        (exists|i: int| meant(models, model, i)) ==> exists|i: int| #[trigger]
            meant(models, model, i) && overridden(models[i], personality, before, after),
{
}

// ---------------------------------------------------------------------------
// What is known, asked and kept

/// What was kept is taken the first time, if it is for the one who asks.
pub proof fn kept_lists_are_taken_once(
    s: StateView,
    identity: Option<Seq<char>>,
    cache: Option<CacheView>,
)
    ensures
        ({
            let t = loaded(s, identity, cache);
            &&& t.loaded_from_disk && t.identity == identity
            &&& !s.loaded_from_disk && cache is Some && identity is Some && cache->0.identity
                == identity ==> {
                &&& t.models == cache->0.models
                &&& t.etag == cache->0.etag
                &&& t.fetched_at == Some(cache->0.fetched_at)
            }
            &&& !s.loaded_from_disk && (cache is None || identity is None || cache->0.identity
                != identity) ==> t.models == s.models && t.etag == s.etag && t.fetched_at
                == s.fetched_at
            &&& s.loaded_from_disk && s.identity == identity ==> t == s
            &&& s.loaded_from_disk && s.identity != identity ==> t.models.len() == 0
                && t.etag is None && t.fetched_at is None
        }),
{
}

/// A list is good for one who is known, for whom it was fetched, and not for longer than
/// it is.
pub proof fn good_lists_are_ones_own(
    s: StateView,
    identity: Option<Seq<char>>,
    still_good: bool,
)
    ensures
        is_fresh(s, identity, still_good) <==> identity is Some && s.identity == identity
            && s.fetched_at is Some && still_good,
{
}

/// A list that is answered takes the place of the one that was known, with its tag unless
/// that is blank, and is kept for the one who asked; one that is not for them any more
/// changes nothing.
pub proof fn new_lists_replace_old_ones(
    before: StateView,
    after: StateView,
    saved: Option<ModelsCache>,
    identity: Option<Seq<char>>,
    reply: ModelsReply,
    models: Vec<ModelInfo>,
    now: Timestamp,
)
    requires
        answer_taken(before, after, saved, identity, identity, Some(reply), now),
        before.identity == identity,
        200 <= reply.status <= 299,
        reply.models == Some(models),
    ensures
        after.models == models@,
        after.fetched_at == Some(now),
        after.identity == identity,
        reply.etag matches Some(t) ==> trim_text(t@).len() > 0 ==> after.etag == Some(t@),
        reply.etag matches Some(t) ==> trim_text(t@).len() == 0 ==> after.etag is None,
        reply.etag is None ==> after.etag is None,
        saved is Some <==> identity is Some,
        saved matches Some(c) ==> {
            &&& opt_text(c.identity) == identity
            &&& opt_text(c.etag) == after.etag
            &&& c.fetched_at == now
            &&& c.models@.len() == models@.len()
            &&& forall|i: int|
                0 <= i < models@.len() ==> (#[trigger] c.models@[i]).slug@ == models@[i].slug@
        },
{
    if let Some(c) = saved {
        assert forall|i: int| 0 <= i < models@.len() implies (#[trigger] c.models@[i]).slug@
            == models@[i].slug@ by {
            assert(same_info(models@[i], c.models@[i]));
        }
    }
}

/// Any other answer than a list, or that it is unchanged, changes nothing.
pub proof fn other_answers_change_nothing(
    before: StateView,
    after: StateView,
    saved: Option<ModelsCache>,
    identity: Option<Seq<char>>,
    identity_now: Option<Seq<char>>,
    reply: ModelsReply,
    now: Timestamp,
)
    requires
        answer_taken(before, after, saved, identity, identity_now, Some(reply), now),
        reply.status != 304,
        reply.status < 200 || reply.status > 299 || reply.models is None,
    ensures
        after == before,
        saved is None,
{
}

/// An answer that the list is unchanged keeps it on disk too, as of now.
pub proof fn unchanged_lists_are_kept_again(
    before: StateView,
    after: StateView,
    saved: Option<ModelsCache>,
    identity: Option<Seq<char>>,
    reply: ModelsReply,
    now: Timestamp,
)
    requires
        answer_taken(before, after, saved, identity, identity, Some(reply), now),
        before.identity == identity,
        reply.status == 304,
    ensures
        after.models == before.models,
        after.etag == before.etag,
        after.identity == before.identity,
        after.fetched_at == Some(now),
        saved is Some <==> identity is Some,
        saved matches Some(c) ==> opt_text(c.identity) == identity && opt_text(c.etag)
            == before.etag && c.fetched_at == now,
{
}

/// A list is asked for only by one who is signed in to the service, or where a command
/// tells how to sign in. The account goes with it only in the first case, the tag as it
/// is given, and it takes no longer than ten seconds.
pub proof fn requests_are_signed(
    provider: RemoteProvider,
    caller: Caller,
    etag: Option<Seq<char>>,
    version: Seq<char>,
)
    ensures
        !caller.uses_codex_backend && !provider.has_command_auth ==> request_of(
            provider,
            caller,
            etag,
            version,
        ) is None,
        request_of(provider, caller, etag, version) matches Some(r) ==> {
            &&& r.if_none_match == etag
            &&& r.timeout_secs == 10
            &&& caller.uses_codex_backend ==> r.account_id == opt_text(caller.account_id)
            &&& !caller.uses_codex_backend ==> r.account_id is None
        },
{
}

/// A list is asked for where the one who asks may and there is an address, and just there;
/// it is asked for at that address.
pub proof fn requests_go_to_the_address(
    provider: RemoteProvider,
    caller: Caller,
    etag: Option<Seq<char>>,
    version: Seq<char>,
)
    ensures
        ({
            let base = base_text(provider.base_url, caller.uses_codex_backend);
            let url = models_address(base, models_pairs(provider.query_params, version));
            let r = request_of(provider, caller, etag, version);
            &&& r is Some <==> (caller.uses_codex_backend || provider.has_command_auth)
                && url is Some
            &&& r is Some ==> r->0.url == url->0
        }),
{
}

/// What is said of a base that is no address names it, and why it is none.
pub proof fn bad_bases_are_named(base: Seq<char>, why: Seq<char>)
    ensures
        invalid_base(base, why) == "invalid models base_url "@ + base + ": "@ + why,
{
}

/// A list is asked for at the provider's address, else at the usual one of the service.
pub proof fn addresses_are_the_providers(base_url: Option<String>)
    ensures
        base_url matches Some(u) ==> base_text(base_url, true) == u@ && base_text(base_url, false)
            == u@,
        base_url is None ==> base_text(base_url, true) == "https://chatgpt.com/backend-api/codex"@
            && base_text(base_url, false) == "https://api.openai.com/v1"@,
{
}

/// The provider's own pairs are asked for, in their order, and then the version.
pub proof fn pairs_come_before_the_version(params: Option<Vec<(String, String)>>, version: Seq<char>, i: int)
    ensures
        ({
            let p = models_pairs(params, version);
            let n = match params {
                Some(v) => v@.len(),
                None => 0,
            };
            &&& p.len() == n + 1
            &&& p[n as int] == ("client_version"@, version)
            &&& params matches Some(v) ==> 0 <= i < n ==> p[i] == (v@[i].0@, v@[i].1@)
        }),
{
}

/// The path of the list is the provider's own, slashes at its end aside, with the name of
/// the list behind it.
pub proof fn paths_end_in_models(path: Seq<char>)
    ensures
        models_path_text(path) == strip_end(path, '/') + "/models"@,
        path.len() > 0 && path.last() != '/' ==> models_path_text(path) == path + "/models"@,
        models_path_text(path.push('/')) == models_path_text(path),
{
    assert(path.push('/').drop_last() =~= path);
}

/// A model is offered where one has its slug; letter case counts or does not.
pub proof fn offered_slugs(models: Seq<ModelInfo>, slug: Seq<char>)
    ensures
        offers(models, slug) <==> exists|i: int|
            0 <= i < models.len() && #[trigger] models[i].slug@ == slug,
        offers_any_case(models, slug) <==> exists|i: int|
            0 <= i < models.len() && ascii_lower_text(#[trigger] models[i].slug@)
                == ascii_lower_text(slug),
{
}

/// A copy of what is said of a model says the same.
pub proof fn copies_say_the_same(a: ModelInfo, b: ModelInfo)
    requires
        same_info(a, b),
    ensures
        a.slug@ == b.slug@,
        a.base_instructions@ == b.base_instructions@,
        a.model_messages is None <==> b.model_messages is None,
        a.model_messages matches Some(m) ==> (b.model_messages matches Some(n) && m.unspecified@
            == n.unspecified@ && m.no_personality@ == n.no_personality@ && m.friendly@
            == n.friendly@ && m.pragmatic@ == n.pragmatic@),
        a.default_reasoning_level == b.default_reasoning_level,
        a.context_window == b.context_window,
        a.apply_patch_tool_type == b.apply_patch_tool_type,
        a.web_search_tool_type == b.web_search_tool_type,
        a.supports_image_detail_original == b.supports_image_detail_original,
        a.input_modalities@ == b.input_modalities@,
        texts(a.additional_speed_tiers@) == texts(b.additional_speed_tiers@),
        a.supports_search_tool == b.supports_search_tool,
        a.auto_compact_token_limit == b.auto_compact_token_limit,
        a.truncation_policy == b.truncation_policy,
        a.supports_reasoning_summaries == b.supports_reasoning_summaries,
        a.supports_parallel_tool_calls == b.supports_parallel_tool_calls,
        a.use_responses_lite == b.use_responses_lite,
        a.prefer_websockets == b.prefer_websockets,
        a.default_reasoning_summary == b.default_reasoning_summary,
{
}

/// What was set up stays: the provider, the directory, and how long a list is good.
pub proof fn the_setup_stays(a: RemoteModelsManager, b: RemoteModelsManager)
    requires
        a.same_setup(b),
    ensures
        a.provider == b.provider,
        a.code_home == b.code_home,
        a.cache_ttl_secs == b.cache_ttl_secs,
        a.cache_ttl_nanos == b.cache_ttl_nanos,
{
}

/// In a query letters, digits, four signs and a blank take one byte; of any other sign
/// each byte of its UTF-8 form takes three.
pub proof fn signs_take_their_bytes(text: Seq<char>, c: char)
    ensures
        encoded_size(Seq::empty()) == 0,
        encoded_size(text.push(c)) >= encoded_size(text) + 1,
        'a' <= c <= 'z' || 'A' <= c <= 'Z' || '0' <= c <= '9' || c == '*' || c == '-' || c == '.'
            || c == '_' || c == ' ' ==> encoded_size(text.push(c)) == encoded_size(text) + 1,
        c == '&' || c == '=' || c == '%' || c == '+' || c == '/' || c == '?' || c == '#'
            ==> encoded_size(text.push(c)) == encoded_size(text) + 3,
        0x80 <= c as u32 && (c as u32) < 0x800 ==> encoded_size(text.push(c)) == encoded_size(text)
            + 6,
        0x800 <= c as u32 && (c as u32) < 0x10000 ==> encoded_size(text.push(c)) == encoded_size(
            text,
        ) + 9,
        0x10000 <= c as u32 ==> encoded_size(text.push(c)) == encoded_size(text) + 12,
{
    assert(text.push(c).drop_last() =~= text);
}

/// A pair takes its name, its value and two signs.
pub proof fn pairs_take_their_bytes(
    pairs: Seq<(Seq<char>, Seq<char>)>,
    k: Seq<char>,
    v: Seq<char>,
)
    ensures
        pairs_size(Seq::empty()) == 0,
        pairs_size(pairs.push((k, v))) == pairs_size(pairs) + encoded_size(k) + encoded_size(v) + 2,
{
    assert(pairs.push((k, v)).drop_last() =~= pairs);
}

proof fn before_the_first_sign(a: Seq<char>, c: char, b: Seq<char>, query_too: bool)
    requires
        c == '#' || (query_too && c == '?'),
        forall|i: int|
            0 <= i < a.len() ==> #[trigger] a[i] != '#' && (query_too ==> a[i] != '?'),
    ensures
        length_before(a, query_too) == a.len(),
        length_before(a + seq![c] + b, query_too) == a.len(),
    decreases a.len() + b.len(),
{
    let s = a + seq![c] + b;
    if a.len() > 0 {
        let t = a.drop_last();
        assert forall|i: int| 0 <= i < t.len() implies #[trigger] t[i] != '#' && (query_too ==> t[i]
            != '?') by {
            assert(t[i] == a[i]);
        }
        before_the_first_sign(t, c, Seq::empty(), query_too);
        assert(a.last() == a[a.len() - 1]);
    }
    if b.len() > 0 {
        let u = b.drop_last();
        before_the_first_sign(a, c, u, query_too);
        assert(s.drop_last() =~= a + seq![c] + u);
    } else {
        assert(s.drop_last() =~= a);
        assert(s.last() == c);
    }
    assert(s.len() == a.len() + 1 + b.len());
    assert(length_before(a, query_too) == a.len());
    assert(length_before(s.drop_last(), query_too) == a.len());
}

/// The path of an address ends where its query or its fragment begins, and its query where
/// its fragment does.
pub proof fn addresses_have_their_parts(
    before: Seq<char>,
    query: Seq<char>,
    fragment: Seq<char>,
)
    requires
        forall|i: int| 0 <= i < before.len() ==> #[trigger] before[i] != '#' && before[i] != '?',
        forall|i: int| 0 <= i < query.len() ==> #[trigger] query[i] != '#',
    ensures
        length_before(before, true) == before.len(),
        length_before(before + seq!['?'] + query, true) == before.len(),
        length_before(before + seq!['#'] + fragment, true) == before.len(),
        length_before(before + seq!['?'] + query + seq!['#'] + fragment, false) == before.len() + 1
            + query.len(),
{
    before_the_first_sign(before, '?', query, true);
    before_the_first_sign(before, '#', fragment, true);
    let q = before + seq!['?'] + query;
    assert forall|i: int| 0 <= i < q.len() implies #[trigger] q[i] != '#' by {
        if i < before.len() {
            assert(q[i] == before[i]);
        } else if i > before.len() {
            assert(q[i] == query[i - before.len() - 1]);
        }
    }
    before_the_first_sign(q, '#', fragment, false);
}

/// An address with a path in it has the other path in its place, and its positions are
/// those that the parts then have: no address fits whose path ends, or whose fragment
/// starts, behind the last position.
pub proof fn positions_are_those_of_the_parts(
    text: Seq<char>,
    path: Seq<char>,
    new_path: Seq<char>,
    pairs: Seq<(Seq<char>, Seq<char>)>,
)
    requires
        path.len() > 0,
    ensures
        ({
            let end = length_before(text, true);
            let query = length_before(text, false) - end;
            let moved = end - path.len() + new_path.len();
            let has_fragment = length_before(text, false) < text.len();
            let place = moved + pairs_size(pairs) + if query > 1 {
                query
            } else {
                0
            };
            length_before(text, false) <= text.len() ==> (fits(text, path, new_path, pairs) <==> end
                <= 0xffff_ffff && moved <= 0xffff_ffff && (has_fragment ==> place <= 0xffff_ffff))
        }),
{
}

/// What is known of a list, and what is kept of it, is what is held of it.
pub proof fn lists_say_what_they_hold(s: RemoteModelsState, c: ModelsCache)
    ensures
        s.view().loaded_from_disk == s.loaded_from_disk,
        s.view().fetched_at == s.fetched_at,
        s.view().etag == opt_text(s.etag),
        s.view().identity == opt_text(s.identity),
        s.view().models == s.models@,
        c.view().fetched_at == c.fetched_at,
        c.view().etag == opt_text(c.etag),
        c.view().identity == opt_text(c.identity),
        c.view().models == c.models@,
{
}

/// How many signs the pairs have, with two more for each.
pub open spec fn pairs_length(pairs: Seq<(Seq<char>, Seq<char>)>) -> nat
    decreases pairs.len(),
{
    if pairs.len() == 0 {
        0
    } else {
        pairs_length(pairs.drop_last()) + pairs.last().0.len() + pairs.last().1.len() + 2
    }
}

proof fn texts_take_some_bytes(text: Seq<char>)
    ensures
        encoded_size(text) <= 12 * text.len(),
    decreases text.len(),
{
    if text.len() > 0 {
        texts_take_some_bytes(text.drop_last());
    }
}

proof fn pairs_take_some_bytes(pairs: Seq<(Seq<char>, Seq<char>)>)
    ensures
        pairs_size(pairs) <= 12 * pairs_length(pairs),
    decreases pairs.len(),
{
    if pairs.len() > 0 {
        pairs_take_some_bytes(pairs.drop_last());
        texts_take_some_bytes(pairs.last().0);
        texts_take_some_bytes(pairs.last().1);
    }
}

proof fn before_is_within(text: Seq<char>, query_too: bool)
    ensures
        0 <= length_before(text, query_too) <= text.len(),
    decreases text.len(),
{
    if text.len() > 0 {
        before_is_within(text.drop_last(), query_too);
    }
}

/// There is an address for every base that is one, as long as a position in it has at
/// most 32 bits whatever its signs are written as.
pub proof fn bases_have_addresses(
    base: Seq<char>,
    path: Seq<char>,
    pairs: Seq<(Seq<char>, Seq<char>)>,
)
    requires
        url_path(base) == Ok::<Seq<char>, Seq<char>>(path),
        2 * url_text(base).len() + path.len() + 9 + 12 * pairs_length(pairs) <= 0xffff_ffff,
    ensures
        models_address(base, pairs) is Some,
        models_address(base, pairs) == Some(
            url_with(base, strip_end(path, '/') + "/models"@, pairs),
        ),
{
    let text = url_text(base);
    pairs_take_some_bytes(pairs);
    before_is_within(text, true);
    before_is_within(text, false);
    stripped_is_shorter(path);
    reveal_strlit("/models");
    assert("/models"@.len() == 7);
    assert(models_path_text(path).len() <= path.len() + 7);
}

proof fn stripped_is_shorter(s: Seq<char>)
    ensures
        strip_end(s, '/').len() <= s.len(),
    decreases s.len(),
{
    if s.len() > 0 && s.last() == '/' {
        stripped_is_shorter(s.drop_last());
    }
}

/// What is no address has none.
pub proof fn other_bases_have_none(base: Seq<char>, pairs: Seq<(Seq<char>, Seq<char>)>)
    requires
        url_path(base) is Err,
    ensures
        models_address(base, pairs) is None,
{
}

} // verus!
