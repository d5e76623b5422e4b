//! The list of models that a provider offers, kept between runs: what is known of
//! it, when it is asked for again, and what an answer changes.

use crate::memory_store::{is_path, JoinedPath};
use crate::model_url::{base_text, models_address, models_pairs, models_url};
use crate::protocol::ModelFamily;
use crate::remote_models::{
    apply_model_info_overrides_with_personality, find_remote_model_info, meant, overridden,
    same_info, same_infos, ModelInfo, Personality, CODEX_AUTO_BALANCED_MODEL,
    DEFAULT_MODEL_CACHE_TTL_SECS, MODEL_CACHE_FILE, REMOTE_MODELS_REQUEST_TIMEOUT_SECS,
};
use crate::text::{ascii_lower_text, eq_ignore_ascii_case, opt_text, str_eq, trim, trim_text};
use crate::time::Timestamp;
use vstd::prelude::*;

verus! {

/// The list as it is kept on disk.
#[derive(Debug, PartialEq, Eq)]
pub struct ModelsCache {
    pub fetched_at: Timestamp,
    pub etag: Option<String>,
    pub identity: Option<String>,
    pub models: Vec<ModelInfo>,
}

/// What a kept list holds.
pub struct CacheView {
    pub fetched_at: Timestamp,
    pub etag: Option<Seq<char>>,
    pub identity: Option<Seq<char>>,
    pub models: Seq<ModelInfo>,
}

impl ModelsCache {
    /// What the kept list holds.
    pub open spec fn view(&self) -> CacheView {
        CacheView {
            fetched_at: self.fetched_at,
            etag: opt_text(self.etag),
            identity: opt_text(self.identity),
            models: self.models@,
        }
    }
}

/// What a kept list holds, where there is one.
pub open spec fn cache_view(cache: Option<ModelsCache>) -> Option<CacheView> {
    match cache {
        Some(cache) => Some(cache.view()),
        None => None,
    }
}

/// What is known of the list.
#[derive(Debug, PartialEq, Eq)]
pub struct RemoteModelsState {
    /// What was kept on disk has been looked at.
    pub loaded_from_disk: bool,
    pub fetched_at: Option<Timestamp>,
    pub etag: Option<String>,
    /// For whom the list is.
    pub identity: Option<String>,
    pub models: Vec<ModelInfo>,
}

/// What is known of the list, as plain values.
pub struct StateView {
    pub loaded_from_disk: bool,
    pub fetched_at: Option<Timestamp>,
    pub etag: Option<Seq<char>>,
    pub identity: Option<Seq<char>>,
    pub models: Seq<ModelInfo>,
}

impl RemoteModelsState {
    /// What is known, as plain values.
    pub open spec fn view(&self) -> StateView {
        StateView {
            loaded_from_disk: self.loaded_from_disk,
            fetched_at: self.fetched_at,
            etag: opt_text(self.etag),
            identity: opt_text(self.identity),
            models: self.models@,
        }
    }
}

/// Nothing is known.
pub open spec fn nothing_known() -> StateView {
    StateView {
        loaded_from_disk: false,
        fetched_at: None,
        etag: None,
        identity: None,
        models: Seq::empty(),
    }
}

impl Default for RemoteModelsState {
    fn default() -> (r: Self)
        ensures
            r.view() == nothing_known(),
    {
        RemoteModelsState {
            loaded_from_disk: false,
            fetched_at: None,
            etag: None,
            identity: None,
            models: Vec::new(),
        }
    }
}

/// Who offers the models.
#[derive(Debug, PartialEq, Eq)]
pub struct RemoteProvider {
    pub base_url: Option<String>,
    /// What is asked for in each query, in this order.
    pub query_params: Option<Vec<(String, String)>>,
    /// A command tells how to sign in.
    pub has_command_auth: bool,
}

/// Who asks.
#[derive(Debug, PartialEq, Eq)]
pub struct Caller {
    /// They are signed in to the service behind this program.
    pub uses_codex_backend: bool,
    pub account_id: Option<String>,
    /// For whom a list is kept; where there is none, no list is.
    pub identity: Option<String>,
}

/// The text, where there is one.
pub open spec fn opt_str(o: Option<&str>) -> Option<Seq<char>> {
    match o {
        Some(s) => Some(s@),
        None => None,
    }
}

fn as_text(o: &Option<String>) -> (r: Option<&str>)
    ensures
        opt_str(r) == opt_text(*o),
{
    match o {
        Some(s) => Some(s.as_str()),
        None => None,
    }
}

fn same_text(a: &Option<String>, b: Option<&str>) -> (r: bool)
    ensures
        r == (opt_text(*a) == opt_str(b)),
{
    match (a, b) {
        (Some(a), Some(b)) => str_eq(a.as_str(), b),
        (None, None) => true,
        _ => false,
    }
}

fn owned_text(o: Option<&str>) -> (r: Option<String>)
    ensures
        opt_text(r) == opt_str(o),
{
    match o {
        Some(s) => Some(s.to_string()),
        None => None,
    }
}

fn clone_text(o: &Option<String>) -> (r: Option<String>)
    ensures
        opt_text(r) == opt_text(*o),
{
    match o {
        Some(s) => Some(s.clone()),
        None => None,
    }
}

/// What is known once it is clear who asks: what was kept for them, if nothing was
/// looked at yet; nothing, if what is known is for someone else.
pub open spec fn loaded(
    s: StateView,
    identity: Option<Seq<char>>,
    cache: Option<CacheView>,
) -> StateView {
    if s.loaded_from_disk {
        if s.identity == identity {
            s
        } else {
            StateView {
                loaded_from_disk: true,
                fetched_at: None,
                etag: None,
                identity,
                models: Seq::empty(),
            }
        }
    } else if cache is Some && identity is Some && cache->0.identity == identity {
        StateView {
            loaded_from_disk: true,
            fetched_at: Some(cache->0.fetched_at),
            etag: cache->0.etag,
            identity,
            models: cache->0.models,
        }
    } else {
        StateView { loaded_from_disk: true, identity, ..s }
    }
}

/// The tag under which the list is known to the one who asks.
pub open spec fn known_etag(s: StateView, identity: Option<Seq<char>>) -> Option<Seq<char>> {
    if identity is Some && s.identity == identity {
        s.etag
    } else {
        None
    }
}

/// The list is known to the one who asks, and still good.
pub open spec fn is_fresh(s: StateView, identity: Option<Seq<char>>, still_good: bool) -> bool {
    identity is Some && s.fetched_at is Some && still_good && s.identity == identity
}

/// What is sent to fetch the list.
#[derive(Debug, PartialEq, Eq)]
pub struct ModelsRequest {
    pub url: String,
    /// Only a list with another tag is wanted.
    pub if_none_match: Option<String>,
    pub account_id: Option<String>,
    pub timeout_secs: u64,
}

/// What is sent, as texts.
pub struct RequestView {
    pub url: Seq<char>,
    pub if_none_match: Option<Seq<char>>,
    pub account_id: Option<Seq<char>>,
    pub timeout_secs: u64,
}

/// What is sent, as texts.
pub open spec fn request_view(r: Option<ModelsRequest>) -> Option<RequestView> {
    match r {
        Some(r) => Some(
            RequestView {
                url: r.url@,
                if_none_match: opt_text(r.if_none_match),
                account_id: opt_text(r.account_id),
                timeout_secs: r.timeout_secs,
            },
        ),
        None => None,
    }
}

/// What is sent to fetch the list: nothing, unless the one who asks is signed in to
/// the service or a command tells how to sign in, and there is an address.
pub open spec fn request_of(
    provider: RemoteProvider,
    caller: Caller,
    etag: Option<Seq<char>>,
    client_version: Seq<char>,
) -> Option<RequestView> {
    let url = models_address(
        base_text(provider.base_url, caller.uses_codex_backend),
        models_pairs(provider.query_params, client_version),
    );
    if (caller.uses_codex_backend || provider.has_command_auth) && url is Some {
        Some(
            RequestView {
                url: url->0,
                if_none_match: etag,
                account_id: if caller.uses_codex_backend {
                    opt_text(caller.account_id)
                } else {
                    None
                },
                timeout_secs: REMOTE_MODELS_REQUEST_TIMEOUT_SECS,
            },
        )
    } else {
        None
    }
}

/// What came back.
#[derive(Debug, PartialEq, Eq)]
pub struct ModelsReply {
    /// The status of the answer.
    pub status: u16,
    /// The tag of the list, if it has a readable one.
    pub etag: Option<String>,
    /// The list, if the answer holds one.
    pub models: Option<Vec<ModelInfo>>,
}

/// The tag that is kept: one that is not blank.
pub open spec fn kept_etag(etag: Option<String>) -> Option<Seq<char>> {
    match etag {
        Some(etag) => if trim_text(etag@).len() > 0 {
            Some(etag@)
        } else {
            None
        },
        None => None,
    }
}

/// The answer is about the list: it is unchanged, or it is there.
pub open spec fn is_news(reply: ModelsReply) -> bool {
    reply.status == 304 || (200 <= reply.status < 300 && reply.models is Some)
}

/// What is known after an answer. Only one about the list counts, and only where
/// the list is still for the one who asked.
pub open spec fn answered(
    s: StateView,
    identity: Option<Seq<char>>,
    identity_now: Option<Seq<char>>,
    reply: Option<ModelsReply>,
    now: Timestamp,
) -> StateView {
    if reply is Some && is_news(reply->0) && identity_now == identity && s.identity == identity {
        if reply->0.status == 304 {
            StateView { fetched_at: Some(now), ..s }
        } else {
            StateView {
                fetched_at: Some(now),
                etag: kept_etag(reply->0.etag),
                models: reply->0.models->0@,
                ..s
            }
        }
    } else {
        s
    }
}

/// The list is kept on disk: after an answer that counted, for someone known.
pub open spec fn is_saved(
    s: StateView,
    identity: Option<Seq<char>>,
    identity_now: Option<Seq<char>>,
    reply: Option<ModelsReply>,
) -> bool {
    identity is Some && reply is Some && is_news(reply->0) && identity_now == identity
        && s.identity == identity
}

/// What is kept on disk is what is known.
pub open spec fn saves(cache: ModelsCache, s: StateView) -> bool {
    &&& s.fetched_at == Some(cache.fetched_at)
    &&& opt_text(cache.etag) == s.etag
    &&& opt_text(cache.identity) == s.identity
    &&& same_infos(s.models, cache.models@)
}

/// After this answer this is known, and this is kept on disk.
pub open spec fn answer_taken(
    before: StateView,
    after: StateView,
    saved: Option<ModelsCache>,
    identity: Option<Seq<char>>,
    identity_now: Option<Seq<char>>,
    reply: Option<ModelsReply>,
    now: Timestamp,
) -> bool {
    &&& after == answered(before, identity, identity_now, reply, now)
    &&& saved is Some <==> is_saved(before, identity, identity_now, reply)
    &&& saved is Some ==> saves(saved->0, after)
}

/// A model has this very slug.
pub open spec fn offers(models: Seq<ModelInfo>, slug: Seq<char>) -> bool {
    exists|i: int| 0 <= i < models.len() && #[trigger] models[i].slug@ == slug
}

/// A model has this slug, letter case aside.
pub open spec fn offers_any_case(models: Seq<ModelInfo>, slug: Seq<char>) -> bool {
    exists|i: int|
        0 <= i < models.len() && ascii_lower_text(#[trigger] models[i].slug@) == ascii_lower_text(
            slug,
        )
}

fn any_slug(models: &Vec<ModelInfo>, slug: &str) -> (r: bool)
    ensures
        r == offers(models@, slug@),
{
    let mut i: usize = 0;
    while i < models.len()
        invariant
            i <= models.len(),
            forall|j: int| 0 <= j < i ==> #[trigger] models@[j].slug@ != slug@,
        decreases models.len() - i,
    {
        if str_eq(models[i].slug.as_str(), slug) {
            assert(models@[i as int].slug@ == slug@);
            return true;
        }
        i = i + 1;
    }
    false
}

fn any_slug_any_case(models: &Vec<ModelInfo>, slug: &str) -> (r: bool)
    ensures
        r == offers_any_case(models@, slug@),
{
    let mut i: usize = 0;
    while i < models.len()
        invariant
            i <= models.len(),
            forall|j: int|
                0 <= j < i ==> ascii_lower_text(#[trigger] models@[j].slug@) != ascii_lower_text(
                    slug@,
                ),
        decreases models.len() - i,
    {
        if eq_ignore_ascii_case(models[i].slug.as_str(), slug) {
            assert(ascii_lower_text(models@[i as int].slug@) == ascii_lower_text(slug@));
            return true;
        }
        i = i + 1;
    }
    false
}

/// Keeps the list of a provider's models.
#[derive(Debug, PartialEq, Eq)]
pub struct RemoteModelsManager {
    pub state: RemoteModelsState,
    pub provider: RemoteProvider,
    pub code_home: String,
    /// How long a list is good: the seconds, and the nanoseconds beside them.
    pub cache_ttl_secs: u64,
    pub cache_ttl_nanos: u32,
}

impl RemoteModelsManager {
    /// Nothing else has changed.
    pub open spec fn same_setup(self, other: RemoteModelsManager) -> bool {
        self.provider == other.provider && self.code_home == other.code_home
            && self.cache_ttl_secs == other.cache_ttl_secs && self.cache_ttl_nanos
            == other.cache_ttl_nanos
    }

    /// A manager that knows nothing yet.
    pub fn new(provider: RemoteProvider, code_home: String) -> (r: RemoteModelsManager)
        ensures
            r.state.view() == nothing_known(),
            r.provider == provider,
            r.code_home == code_home,
            r.cache_ttl_secs == DEFAULT_MODEL_CACHE_TTL_SECS,
            r.cache_ttl_nanos == 0,
    {
        RemoteModelsManager {
            state: RemoteModelsState::default(),
            provider,
            code_home,
            cache_ttl_secs: DEFAULT_MODEL_CACHE_TTL_SECS,
            cache_ttl_nanos: 0,
        }
    }

    /// The same, for another time that a list is good.
    pub fn with_cache_ttl(self, ttl_secs: u64, ttl_nanos: u32) -> (r: RemoteModelsManager)
        ensures
            r.state == self.state,
            r.provider == self.provider,
            r.code_home == self.code_home,
            r.cache_ttl_secs == ttl_secs,
            r.cache_ttl_nanos == ttl_nanos,
    {
        RemoteModelsManager {
            state: self.state,
            provider: self.provider,
            code_home: self.code_home,
            cache_ttl_secs: ttl_secs,
            cache_ttl_nanos: ttl_nanos,
        }
    }

    /// The file that the list is kept in.
    pub fn cache_path(&self) -> (p: JoinedPath)
        ensures
            is_path(p, self.code_home@, seq![MODEL_CACHE_FILE@]),
    {
        let p = JoinedPath { base: self.code_home.clone(), parts: vec![MODEL_CACHE_FILE] };
        assert(p.parts@.map_values(|s: &'static str| s@) =~= seq![MODEL_CACHE_FILE@]);
        p
    }

    /// What was kept on disk is wanted: nothing was looked at yet, and it is known
    /// who asks.
    pub fn wants_cache(&self, identity: Option<&str>) -> (r: bool)
        ensures
            r == (!self.state.loaded_from_disk && identity is Some),
    {
        !self.state.loaded_from_disk && identity.is_some()
    }

    /// Takes what was kept on disk, the first time, if it is for the one who asks.
    /// Later forgets what is for someone else.
    pub fn ensure_loaded_from_disk(&mut self, identity: Option<&str>, cache: Option<ModelsCache>)
        ensures
            final(self).state.view() == loaded(
                old(self).state.view(),
                opt_str(identity),
                cache_view(cache),
            ),
            final(self).same_setup(*old(self)),
    {
        if self.state.loaded_from_disk {
            if !same_text(&self.state.identity, identity) {
                self.state = RemoteModelsState {
                    loaded_from_disk: true,
                    fetched_at: None,
                    etag: None,
                    identity: owned_text(identity),
                    models: Vec::new(),
                };
            }
            return;
        }
        self.state.loaded_from_disk = true;
        self.state.identity = owned_text(identity);
        if let Some(cache) = cache {
            if identity.is_some() && same_text(&cache.identity, identity) {
                self.state.fetched_at = Some(cache.fetched_at);
                self.state.etag = cache.etag;
                self.state.models = cache.models;
            }
        }
    }

    /// The models that are known. Looks at what was kept, and asks nobody.
    pub fn remote_models_snapshot(&mut self, caller: &Caller, cache: Option<ModelsCache>) -> (r:
        Vec<ModelInfo>)
        ensures
            final(self).state.view() == loaded(
                old(self).state.view(),
                opt_text(caller.identity),
                cache_view(cache),
            ),
            final(self).same_setup(*old(self)),
            same_infos(final(self).state.models@, r@),
    {
        self.ensure_loaded_from_disk(as_text(&caller.identity), cache);
        clone_models(&self.state.models)
    }

    /// The model that is taken where none was chosen: the one of that name, if the
    /// provider offers it and the one who asks is signed in with an account.
    pub fn default_model_slug(
        &mut self,
        caller: &Caller,
        cache: Option<ModelsCache>,
        chatgpt_account: bool,
    ) -> (r: Option<String>)
        ensures
            final(self).state.view() == loaded(
                old(self).state.view(),
                opt_text(caller.identity),
                cache_view(cache),
            ),
            final(self).same_setup(*old(self)),
            r is Some <==> chatgpt_account && offers(
                final(self).state.models@,
                CODEX_AUTO_BALANCED_MODEL@,
            ),
            r is Some ==> r->0@ == CODEX_AUTO_BALANCED_MODEL@,
    {
        self.ensure_loaded_from_disk(as_text(&caller.identity), cache);
        if !chatgpt_account {
            return None;
        }
        if any_slug(&self.state.models, CODEX_AUTO_BALANCED_MODEL) {
            Some(CODEX_AUTO_BALANCED_MODEL.to_string())
        } else {
            None
        }
    }

    /// A model of this name is offered, letter case aside.
    pub fn has_model_slug(
        &mut self,
        caller: &Caller,
        cache: Option<ModelsCache>,
        model: &str,
    ) -> (r: bool)
        ensures
            final(self).state.view() == loaded(
                old(self).state.view(),
                opt_text(caller.identity),
                cache_view(cache),
            ),
            final(self).same_setup(*old(self)),
            r == offers_any_case(final(self).state.models@, model@),
    {
        self.ensure_loaded_from_disk(as_text(&caller.identity), cache);
        any_slug_any_case(&self.state.models, model)
    }

    /// The tag under which the list is known to the one who asks.
    pub fn get_etag(&self, identity: Option<&str>) -> (r: Option<String>)
        ensures
            opt_text(r) == known_etag(self.state.view(), opt_str(identity)),
    {
        if identity.is_some() && same_text(&self.state.identity, identity) {
            clone_text(&self.state.etag)
        } else {
            None
        }
    }

    /// What is sent to fetch the list, if anything is.
    pub fn models_request(
        &self,
        caller: &Caller,
        etag: Option<String>,
        client_version: &str,
    ) -> (r: Option<ModelsRequest>)
        ensures
            request_view(r) == request_of(self.provider, *caller, opt_text(etag), client_version@),
    {
        if !(caller.uses_codex_backend || self.provider.has_command_auth) {
            return None;
        }
        match models_url(
            &self.provider.base_url,
            &self.provider.query_params,
            caller.uses_codex_backend,
            client_version,
        ) {
            Ok(url) => Some(
                ModelsRequest {
                    url,
                    if_none_match: etag,
                    account_id: if caller.uses_codex_backend {
                        clone_text(&caller.account_id)
                    } else {
                        None
                    },
                    timeout_secs: REMOTE_MODELS_REQUEST_TIMEOUT_SECS,
                },
            ),
            Err(_) => None,
        }
    }

    /// What is sent to fetch the list, unless it is still good. Whether what was
    /// fetched is still good is told by `still_good`.
    pub fn refresh_remote_models_with_cache(
        &mut self,
        caller: &Caller,
        cache: Option<ModelsCache>,
        still_good: bool,
        client_version: &str,
    ) -> (r: Option<ModelsRequest>)
        ensures
            final(self).state.view() == loaded(
                old(self).state.view(),
                opt_text(caller.identity),
                cache_view(cache),
            ),
            final(self).same_setup(*old(self)),
            request_view(r) == if is_fresh(
                final(self).state.view(),
                opt_text(caller.identity),
                still_good,
            ) {
                None
            } else {
                request_of(
                    old(self).provider,
                    *caller,
                    final(self).state.view().etag,
                    client_version@,
                )
            },
    {
        self.ensure_loaded_from_disk(as_text(&caller.identity), cache);
        let ours: bool = same_text(&self.state.identity, as_text(&caller.identity));
        if caller.identity.is_some() && self.state.fetched_at.is_some() && still_good && ours {
            return None;
        }
        let etag: Option<String> = if ours {
            clone_text(&self.state.etag)
        } else {
            None
        };
        self.models_request(caller, etag, client_version)
    }

    /// What is sent to fetch the list, unless it is still good.
    pub fn refresh_remote_models(
        &mut self,
        caller: &Caller,
        cache: Option<ModelsCache>,
        still_good: bool,
        client_version: &str,
    ) -> (r: Option<ModelsRequest>)
        ensures
            final(self).state.view() == loaded(
                old(self).state.view(),
                opt_text(caller.identity),
                cache_view(cache),
            ),
            final(self).same_setup(*old(self)),
            request_view(r) == if is_fresh(
                final(self).state.view(),
                opt_text(caller.identity),
                still_good,
            ) {
                None
            } else {
                request_of(
                    old(self).provider,
                    *caller,
                    final(self).state.view().etag,
                    client_version@,
                )
            },
    {
        self.refresh_remote_models_with_cache(caller, cache, still_good, client_version)
    }

    /// What is sent to fetch the list, good or not.
    pub fn refresh_remote_models_no_cache(
        &mut self,
        caller: &Caller,
        cache: Option<ModelsCache>,
        client_version: &str,
    ) -> (r: Option<ModelsRequest>)
        ensures
            final(self).state.view() == loaded(
                old(self).state.view(),
                opt_text(caller.identity),
                cache_view(cache),
            ),
            final(self).same_setup(*old(self)),
            request_view(r) == request_of(
                old(self).provider,
                *caller,
                known_etag(final(self).state.view(), opt_text(caller.identity)),
                client_version@,
            ),
    {
        self.ensure_loaded_from_disk(as_text(&caller.identity), cache);
        let etag: Option<String> = self.get_etag(as_text(&caller.identity));
        self.models_request(caller, etag, client_version)
    }

    /// What is sent to fetch the list, unless it is known under this tag.
    pub fn refresh_if_new_etag(
        &mut self,
        caller: &Caller,
        cache: Option<ModelsCache>,
        etag: &str,
        client_version: &str,
    ) -> (r: Option<ModelsRequest>)
        ensures
            final(self).state.view() == loaded(
                old(self).state.view(),
                opt_text(caller.identity),
                cache_view(cache),
            ),
            final(self).same_setup(*old(self)),
            ({
                let known = known_etag(final(self).state.view(), opt_text(caller.identity));
                request_view(r) == if known == Some(etag@) {
                    None
                } else {
                    request_of(old(self).provider, *caller, known, client_version@)
                }
            }),
    {
        self.ensure_loaded_from_disk(as_text(&caller.identity), cache);
        let known: Option<String> = self.get_etag(as_text(&caller.identity));
        if same_text(&known, Some(etag)) {
            return None;
        }
        self.models_request(caller, known, client_version)
    }

    /// Takes an answer that came at this time. What is returned is to be kept on
    /// disk.
    pub fn take_answer_at(
        &mut self,
        identity: Option<&str>,
        identity_now: Option<&str>,
        reply: Option<ModelsReply>,
        now: Timestamp,
    ) -> (r: Option<ModelsCache>)
        ensures
            answer_taken(
                old(self).state.view(),
                final(self).state.view(),
                r,
                opt_str(identity),
                opt_str(identity_now),
                reply,
                now,
            ),
            final(self).same_setup(*old(self)),
    {
        let reply: ModelsReply = match reply {
            Some(reply) => reply,
            None => {
                return None;
            },
        };
        let unchanged: bool = reply.status == 304;
        if !unchanged && !(200 <= reply.status && reply.status < 300) {
            return None;
        }
        if !same_text(&owned_text(identity_now), identity) || !same_text(
            &self.state.identity,
            identity,
        ) {
            return None;
        }
        if !unchanged {
            match reply.models {
                Some(models) => {
                    self.state.models = models;
                    self.state.etag = match reply.etag {
                        Some(etag) => {
                            let trimmed: String = trim(etag.as_str());
                            if trimmed.as_str().unicode_len() > 0 {
                                Some(etag)
                            } else {
                                None
                            }
                        },
                        None => None,
                    };
                },
                None => {
                    return None;
                },
            }
        }
        self.state.fetched_at = Some(now);
        if identity.is_some() {
            Some(
                ModelsCache {
                    fetched_at: now,
                    etag: clone_text(&self.state.etag),
                    identity: owned_text(identity),
                    models: clone_models(&self.state.models),
                },
            )
        } else {
            None
        }
    }

    /// Takes an answer that has just come. What is returned is to be kept on disk.
    pub fn take_answer(
        &mut self,
        identity: Option<&str>,
        identity_now: Option<&str>,
        reply: Option<ModelsReply>,
    ) -> (r: Option<ModelsCache>)
        ensures
            exists|now: Timestamp|
                #[trigger] answer_taken(
                    old(self).state.view(),
                    final(self).state.view(),
                    r,
                    opt_str(identity),
                    opt_str(identity_now),
                    reply,
                    now,
                ),
            final(self).same_setup(*old(self)),
    {
        let now = Timestamp::now();
        self.take_answer_at(identity, identity_now, reply, now)
    }

    /// What is known of the family once the model that is meant has had its say.
    pub fn apply_remote_overrides_with_personality(
        &mut self,
        caller: &Caller,
        cache: Option<ModelsCache>,
        model: &str,
        family: ModelFamily,
        personality: Option<Personality>,
    ) -> (r: ModelFamily)
        ensures
            final(self).state.view() == loaded(
                old(self).state.view(),
                opt_text(caller.identity),
                cache_view(cache),
            ),
            final(self).same_setup(*old(self)),
            with_overrides(final(self).state.models@, model@, personality, family, r),
    {
        self.ensure_loaded_from_disk(as_text(&caller.identity), cache);
        match find_remote_model_info(self.state.models.as_slice(), model) {
            Some(info) => apply_model_info_overrides_with_personality(info, family, personality),
            None => family,
        }
    }

    /// The same, no manner asked for.
    pub fn apply_remote_overrides(
        &mut self,
        caller: &Caller,
        cache: Option<ModelsCache>,
        model: &str,
        family: ModelFamily,
    ) -> (r: ModelFamily)
        ensures
            final(self).state.view() == loaded(
                old(self).state.view(),
                opt_text(caller.identity),
                cache_view(cache),
            ),
            final(self).same_setup(*old(self)),
            with_overrides(final(self).state.models@, model@, None, family, r),
    {
        self.apply_remote_overrides_with_personality(caller, cache, model, family, None)
    }

    /// What is known of a model's family: what this program knows of it, else what
    /// holds of any, once the model has had its say.
    pub fn construct_model_family(
        &mut self,
        caller: &Caller,
        cache: Option<ModelsCache>,
        model: &str,
        known: Option<ModelFamily>,
        default: ModelFamily,
    ) -> (r: ModelFamily)
        ensures
            final(self).state.view() == loaded(
                old(self).state.view(),
                opt_text(caller.identity),
                cache_view(cache),
            ),
            final(self).same_setup(*old(self)),
            with_overrides(
                final(self).state.models@,
                model@,
                None,
                match known {
                    Some(family) => family,
                    None => default,
                },
                r,
            ),
    {
        let base: ModelFamily = match known {
            Some(family) => family,
            None => default,
        };
        self.apply_remote_overrides(caller, cache, model, base)
    }
}

/// What is known of the family once the model that is meant has had its say, if one
/// is meant.
pub open spec fn with_overrides(
    models: Seq<ModelInfo>,
    model: Seq<char>,
    personality: Option<Personality>,
    before: ModelFamily,
    after: ModelFamily,
) -> bool {
    if exists|i: int| meant(models, model, i) {
        exists|i: int| #[trigger]
            meant(models, model, i) && overridden(models[i], personality, before, after)
    } else {
        after == before
    }
}

fn clone_models(v: &Vec<ModelInfo>) -> (r: Vec<ModelInfo>)
    ensures
        same_infos(v@, r@),
{
    let mut out: Vec<ModelInfo> = Vec::new();
    let mut i: usize = 0;
    while i < v.len()
        invariant
            i <= v.len(),
            out@.len() == i,
            forall|j: int| 0 <= j < i ==> #[trigger] same_info(v@[j], out@[j]),
        decreases v.len() - i,
    {
        out.push(v[i].clone());
        i = i + 1;
    }
    out
}

} // verus!
