//! What holds of the list of models, whatever is asked and answered.

use crate::models_manager::{
    answer_taken, answered, is_news, known_etag, loaded, nothing_known, CacheView, ModelsCache,
    ModelsReply, StateView,
};
use crate::remote_models::{best_at, is_named, same_infos, slug_size, ModelInfo};
use crate::text::{ascii_lower, ascii_lower_text};
use crate::time::Timestamp;
use vstd::prelude::*;
use vstd::utf8::{encode_scalar, encode_utf8};

verus! {

/// Nothing is known before what was kept has been looked at.
pub open spec fn is_sound(s: StateView) -> bool {
    !s.loaded_from_disk ==> s == nothing_known()
}

/// It is so at the start, and stays so whoever asks; and after whoever asked, what
/// was kept has been looked at and what is known is for them.
pub proof fn looking_keeps_sound(
    s: StateView,
    identity: Option<Seq<char>>,
    cache: Option<CacheView>,
)
    requires
        is_sound(s),
    ensures
        is_sound(nothing_known()),
        is_sound(loaded(s, identity, cache)),
        loaded(s, identity, cache).loaded_from_disk,
        loaded(s, identity, cache).identity == identity,
{
}

/// An answer keeps it so too, and does not change for whom the list is.
pub proof fn answers_keep_sound(
    s: StateView,
    identity: Option<Seq<char>>,
    identity_now: Option<Seq<char>>,
    reply: Option<ModelsReply>,
    now: Timestamp,
)
    requires
        s.loaded_from_disk,
    ensures
        answered(s, identity, identity_now, reply, now).loaded_from_disk,
        answered(s, identity, identity_now, reply, now).identity == s.identity,
{
}

/// Looking again, for the same one, changes nothing.
pub proof fn looking_again_changes_nothing(
    s: StateView,
    identity: Option<Seq<char>>,
    cache: Option<CacheView>,
    later: Option<CacheView>,
)
    ensures
        loaded(loaded(s, identity, cache), identity, later) == loaded(s, identity, cache),
{
}

/// A list, its tag and its time are shown only to the one they are for: they were
/// known for them, or were kept for them.
pub proof fn lists_stay_with_their_owner(
    s: StateView,
    identity: Option<Seq<char>>,
    cache: Option<CacheView>,
)
    requires
        is_sound(s),
    ensures
        ({
            let t = loaded(s, identity, cache);
            ||| t.models.len() == 0 && t.etag is None && t.fetched_at is None
            ||| s.identity == identity && t.models == s.models && t.etag == s.etag && t.fetched_at
                == s.fetched_at
            ||| cache is Some && cache->0.identity == identity && identity is Some && t.models
                == cache->0.models && t.etag == cache->0.etag && t.fetched_at == Some(
                cache->0.fetched_at,
            )
        }),
{
}

/// Whoever comes back after someone else finds nothing.
pub proof fn coming_back_finds_nothing(
    s: StateView,
    one: Option<Seq<char>>,
    other: Option<Seq<char>>,
    first: Option<CacheView>,
    second: Option<CacheView>,
    third: Option<CacheView>,
)
    requires
        one != other,
    ensures
        ({
            let back = loaded(loaded(loaded(s, one, first), other, second), one, third);
            back.models.len() == 0 && back.etag is None && back.fetched_at is None
        }),
{
}

/// The tag that is sent is the one of the list that is known, for the one it is for.
pub proof fn sent_tag_is_the_owners(
    s: StateView,
    identity: Option<Seq<char>>,
    cache: Option<CacheView>,
)
    ensures
        known_etag(loaded(s, identity, cache), identity) == if identity is Some {
            loaded(s, identity, cache).etag
        } else {
            None
        },
{
}

/// A request that fails, is refused, or brings nothing readable leaves everything
/// as it was, and nothing is kept.
pub proof fn failures_change_nothing(
    before: StateView,
    after: StateView,
    saved: Option<ModelsCache>,
    identity: Option<Seq<char>>,
    identity_now: Option<Seq<char>>,
    reply: Option<ModelsReply>,
    now: Timestamp,
)
    requires
        answer_taken(before, after, saved, identity, identity_now, reply, now),
        reply is None || !is_news(reply->0),
    ensures
        after == before,
        saved is None,
{
}

/// So does an answer to someone else.
pub proof fn answers_to_others_change_nothing(
    before: StateView,
    after: StateView,
    saved: Option<ModelsCache>,
    identity: Option<Seq<char>>,
    identity_now: Option<Seq<char>>,
    reply: Option<ModelsReply>,
    now: Timestamp,
)
    requires
        answer_taken(before, after, saved, identity, identity_now, reply, now),
        identity_now != identity || before.identity != identity,
    ensures
        after == before,
        saved is None,
{
}

/// An answer that nothing has changed keeps the list and its tag, and makes them
/// good again.
pub proof fn unchanged_list_is_good_again(
    before: StateView,
    identity: Option<Seq<char>>,
    reply: ModelsReply,
    now: Timestamp,
)
    requires
        reply.status == 304,
        before.identity == identity,
    ensures
        ({
            let after = answered(before, identity, identity, Some(reply), now);
            after.models == before.models && after.etag == before.etag && after.fetched_at == Some(
                now,
            )
        }),
{
}

/// What is kept on disk comes back: one who starts anew, and is the one it was kept
/// for, knows what was known.
pub proof fn kept_list_comes_back(
    before: StateView,
    after: StateView,
    saved: ModelsCache,
    identity: Option<Seq<char>>,
    identity_now: Option<Seq<char>>,
    reply: Option<ModelsReply>,
    now: Timestamp,
)
    requires
        before.loaded_from_disk,
        answer_taken(before, after, Some(saved), identity, identity_now, reply, now),
    ensures
        ({
            let again = loaded(nothing_known(), identity, Some(saved.view()));
            &&& again.loaded_from_disk == after.loaded_from_disk
            &&& again.identity == after.identity
            &&& again.etag == after.etag
            &&& again.fetched_at == after.fetched_at
            &&& same_infos(after.models, again.models)
        }),
{
}

proof fn size_of_parts(s: Seq<char>, n: int)
    requires
        0 <= n <= s.len(),
    ensures
        encode_utf8(s.take(n)).len() <= encode_utf8(s).len(),
        n < s.len() ==> encode_utf8(s.take(n)).len() < encode_utf8(s).len(),
    decreases s.len(),
{
    if s.len() > 0 {
        if n == 0 {
            assert(encode_utf8(s.take(0)).len() == 0);
            assert(encode_scalar(s[0] as u32).len() >= 1);
        } else {
            size_of_parts(s.drop_first(), n - 1);
            assert(s.take(n).drop_first() =~= s.drop_first().take(n - 1));
            assert(s.take(n)[0] == s[0]);
        }
    }
}

proof fn size_ignores_case(s: Seq<char>)
    ensures
        encode_utf8(ascii_lower_text(s)).len() == encode_utf8(s).len(),
    decreases s.len(),
{
    if s.len() > 0 {
        size_ignores_case(s.drop_first());
        let lower = ascii_lower_text(s);
        assert(lower.drop_first() =~= ascii_lower_text(s.drop_first()));
        assert(lower[0] == ascii_lower(s[0]));
        assert(encode_scalar(lower[0] as u32).len() == encode_scalar(s[0] as u32).len());
    }
}

/// Where a model has the very name, letter case aside, a model of that name is
/// meant, and none whose slug only begins it. A name takes no more bytes than a
/// machine can count.
pub proof fn very_name_is_preferred(
    models: Seq<ModelInfo>,
    name: Seq<char>,
    exact: int,
    best: int,
)
    requires
        encode_utf8(name).len() <= usize::MAX,
        0 <= exact < models.len(),
        ascii_lower_text(models[exact].slug@) == ascii_lower_text(name),
        best_at(models, name, best),
    ensures
        ascii_lower_text(models[best].slug@) == ascii_lower_text(name),
{
    let slug = models[best].slug@;
    size_ignores_case(name);
    size_ignores_case(models[exact].slug@);
    assert(is_named(models[exact].slug@, name));
    assert(slug_size(models[exact].slug@) <= slug_size(slug));
    if ascii_lower_text(slug) != ascii_lower_text(name) {
        size_of_parts(name, slug.len() as int);
        assert(name.take(slug.len() as int) =~= slug);
        if slug.len() == name.len() {
            assert(slug =~= name);
        }
    }
}

/// The model that is meant is one alone.
pub proof fn best_is_unique(models: Seq<ModelInfo>, name: Seq<char>, a: int, b: int)
    requires
        best_at(models, name, a),
        best_at(models, name, b),
    ensures
        a == b,
{
    assert(is_named(models[a].slug@, name) && is_named(models[b].slug@, name));
}

} // verus!
