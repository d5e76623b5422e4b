//! The address from which the list of models is fetched.

use crate::text::{chars_of, concat, flat, part_texts, strip_end, trim_end_matches};
use vstd::prelude::*;

verus! {

/// The path of an address, or why the address is none.
pub uninterp spec fn url_path(url: Seq<char>) -> Result<Seq<char>, Seq<char>>;

/// The address with another path and with these pairs at the end of its query.
pub uninterp spec fn url_with(
    url: Seq<char>,
    path: Seq<char>,
    pairs: Seq<(Seq<char>, Seq<char>)>,
) -> Seq<char>;

/// The keys and the values.
pub open spec fn pair_texts(pairs: Seq<(String, String)>) -> Seq<(Seq<char>, Seq<char>)> {
    pairs.map_values(|p: (String, String)| (p.0@, p.1@))
}

/// The address as `reqwest::Url` writes it.
pub uninterp spec fn url_text(url: Seq<char>) -> Seq<char>;

/// How many bytes a character takes in UTF-8.
pub open spec fn utf8_size(c: char) -> nat {
    if (c as u32) < 0x80 {
        1
    } else if (c as u32) < 0x800 {
        2
    } else if (c as u32) < 0x10000 {
        3
    } else {
        4
    }
}

/// How many bytes a character takes in a query: letters, digits, a few signs and a
/// blank take one; of any other character each byte is written as a percent sign and
/// two digits.
pub open spec fn encoded_char_size(c: char) -> nat {
    if 'a' <= c <= 'z' || 'A' <= c <= 'Z' || '0' <= c <= '9' || c == '*' || c == '-' || c == '.'
        || c == '_' || c == ' ' {
        1
    } else {
        3 * utf8_size(c)
    }
}

/// How many bytes a text takes in a query.
pub open spec fn encoded_size(text: Seq<char>) -> nat
    decreases text.len(),
{
    if text.len() == 0 {
        0
    } else {
        encoded_size(text.drop_last()) + encoded_char_size(text.last())
    }
}

/// How many bytes the pairs take in a query, each with an equals sign in it and a sign
/// that sets it off.
pub open spec fn pairs_size(pairs: Seq<(Seq<char>, Seq<char>)>) -> nat
    decreases pairs.len(),
{
    if pairs.len() == 0 {
        0
    } else {
        pairs_size(pairs.drop_last()) + encoded_size(pairs.last().0) + encoded_size(pairs.last().1)
            + 2
    }
}

/// How many characters stand in an address before its fragment, and before its query
/// too where that is asked for.
pub open spec fn length_before(text: Seq<char>, query_too: bool) -> int
    decreases text.len(),
{
    if text.len() == 0 {
        0
    } else {
        let n = length_before(text.drop_last(), query_too);
        if n < text.len() - 1 || text.last() == '#' || (query_too && text.last() == '?') {
            n
        } else {
            text.len() as int
        }
    }
}

/// Where the path ends in an address once it is another one. An address that is but a
/// scheme and a colon takes no slash for its path and has it written as a percent sign
/// and two digits.
pub open spec fn new_path_end(text: Seq<char>, path: Seq<char>, new_path: Seq<char>) -> int {
    let end = length_before(text, true);
    let opaque = path.len() == 0 && end > 0 && text[end - 1] == ':';
    end - path.len() + new_path.len() + if opaque {
        2int
    } else {
        0int
    }
}

/// Where the fragment starts once the path is another one and the pairs stand at the
/// end of the query, if there is a fragment.
pub open spec fn fragment_place(
    text: Seq<char>,
    path: Seq<char>,
    new_path: Seq<char>,
    pairs: Seq<(Seq<char>, Seq<char>)>,
) -> Option<int> {
    let query = length_before(text, false) - length_before(text, true);
    if length_before(text, false) == text.len() {
        None
    } else {
        Some(
            new_path_end(text, path, new_path) + (if query <= 1 {
                0
            } else {
                query
            }) + pairs_size(pairs),
        )
    }
}

/// The last position in an address.
pub const MAX_POSITION: u64 = 4_294_967_295;

/// These are positions in an address: where its path ends, where that ends once it is
/// another one, and where the fragment then starts.
pub open spec fn are_positions(
    path_end: int,
    new_path_end: int,
    fragment_place: Option<int>,
) -> bool {
    &&& path_end <= MAX_POSITION
    &&& new_path_end <= MAX_POSITION
    &&& fragment_place matches Some(place) ==> place <= MAX_POSITION
}

/// The path can be another one, and the pairs can stand at the end of the query.
pub open spec fn fits(
    text: Seq<char>,
    path: Seq<char>,
    new_path: Seq<char>,
    pairs: Seq<(Seq<char>, Seq<char>)>,
) -> bool {
    are_positions(
        length_before(text, true),
        new_path_end(text, path, new_path),
        fragment_place(text, path, new_path, pairs),
    )
}

/// `reqwest::Url::parse` and `Url::path`: the path of an address, and what the
/// parser says of a text that is no address. Both depend on the text alone.
#[verifier::external_body]
fn path_of(url: &str) -> (r: Result<String, String>)
    ensures
        match r {
            Ok(path) => url_path(url@) == Ok::<Seq<char>, Seq<char>>(path@),
            Err(message) => url_path(url@) == Err::<Seq<char>, Seq<char>>(message@),
        },
{
    match reqwest::Url::parse(url) {
        Ok(parsed) => Ok(parsed.path().to_string()),
        Err(err) => Err(err.to_string()),
    }
}

/// `reqwest::Url::parse` and `Url::as_str`: the address as it is written, in ASCII. It
/// depends on the text alone. The path stands in it, and ends before the query and the
/// fragment. The text is one that the parser takes.
#[verifier::external_body]
fn text_of(url: &str) -> (r: String)
    requires
        url_path(url@) is Ok,
    ensures
        r@ == url_text(url@),
        url_path(url@)->Ok_0.len() <= length_before(r@, true),
{
    match reqwest::Url::parse(url) {
        Ok(parsed) => parsed.as_str().to_string(),
        Err(err) => err.to_string(),
    }
}

/// `Url::set_path` and the `extend_pairs` of `Url::query_pairs_mut`: the address
/// with the path, and with the pairs, encoded, behind the query it has. The
/// address is one that the parser takes, and the path is its own with the name of the
/// list behind it, so that nothing of it is encoded anew. Addresses that do not fit are
/// left out, for `Url` panics where a position does not fit in 32 bits.
#[verifier::external_body]
fn with_path_and_pairs(url: &str, path: &str, pairs: &Vec<(String, String)>) -> (r: String)
    requires
        url_path(url@) is Ok,
        path@ == models_path_text(url_path(url@)->Ok_0),
        pairs@.len() > 0,
        fits(url_text(url@), url_path(url@)->Ok_0, path@, pair_texts(pairs@)),
    ensures
        r@ == url_with(url@, path@, pair_texts(pairs@)),
{
    match reqwest::Url::parse(url) {
        Ok(mut parsed) => {
            parsed.set_path(path);
            parsed.query_pairs_mut().extend_pairs(pairs.iter());
            parsed.to_string()
        },
        Err(err) => err.to_string(),
    }
}

/// The path of the list of models, given the path that all paths start with.
pub open spec fn models_path_text(base_path: Seq<char>) -> Seq<char> {
    strip_end(base_path, '/') + "/models"@
}

/// The path of the list of models, given the path that all paths start with.
pub fn models_path(base_path: &str) -> (r: String)
    ensures
        r@ == models_path_text(base_path@),
{
    let base: String = trim_end_matches(base_path, '/');
    let parts: [&str; 2] = [base.as_str(), "/models"];
    proof {
        assert(part_texts(parts@) =~= seq![strip_end(base_path@, '/'), "/models"@]);
        reveal_with_fuel(flat, 3);
        assert(flat(part_texts(parts@)) =~= models_path_text(base_path@));
    }
    concat(&parts)
}

/// What is asked for: what the provider wants, then the version of this client.
pub open spec fn models_pairs(
    params: Option<Vec<(String, String)>>,
    version: Seq<char>,
) -> Seq<(Seq<char>, Seq<char>)> {
    (match params {
        Some(params) => pair_texts(params@),
        None => Seq::empty(),
    }).push(("client_version"@, version))
}

/// What is asked for: what the provider wants, then the version of this client.
pub fn models_query(params: &Option<Vec<(String, String)>>, version: &str) -> (r: Vec<(
    String,
    String,
)>)
    ensures
        pair_texts(r@) == models_pairs(*params, version@),
        r@.len() > 0,
{
    let mut pairs: Vec<(String, String)> = Vec::new();
    if let Some(params) = params {
        let mut i: usize = 0;
        while i < params.len()
            invariant
                i <= params.len(),
                pair_texts(pairs@) =~= pair_texts(params@).take(i as int),
            decreases params.len() - i,
        {
            pairs.push((params[i].0.clone(), params[i].1.clone()));
            proof {
                assert(pair_texts(params@).take(i + 1) =~= pair_texts(params@).take(i as int).push(
                    (params@[i as int].0@, params@[i as int].1@),
                ));
            }
            i = i + 1;
        }
        assert(pair_texts(pairs@) =~= pair_texts(params@));
    }
    pairs.push(("client_version".to_string(), version.to_string()));
    assert(pair_texts(pairs@) =~= models_pairs(*params, version@));
    pairs
}

/// Fewer pairs take less.
proof fn pairs_size_grows(pairs: Seq<(Seq<char>, Seq<char>)>, n: int)
    requires
        0 <= n <= pairs.len(),
    ensures
        pairs_size(pairs.take(n)) <= pairs_size(pairs),
    decreases pairs.len() - n,
{
    if n < pairs.len() {
        pairs_size_grows(pairs, n + 1);
        assert(pairs.take(n + 1).drop_last() =~= pairs.take(n));
    } else {
        assert(pairs.take(n) =~= pairs);
    }
}

fn size_of_text(text: &str) -> (r: u128)
    ensures
        r == encoded_size(text@),
        r <= 12 * usize::MAX,
{
    let chars: Vec<char> = chars_of(text);
    let mut total: u128 = 0;
    let mut i: usize = 0;
    while i < chars.len()
        invariant
            i <= chars.len(),
            chars@ == text@,
            total == encoded_size(text@.take(i as int)),
            total <= 12 * i,
        decreases chars.len() - i,
    {
        let c: char = chars[i];
        let code: u32 = c as u32;
        let size: u128 = if ('a' <= c && c <= 'z') || ('A' <= c && c <= 'Z') || ('0' <= c && c
            <= '9') || c == '*' || c == '-' || c == '.' || c == '_' || c == ' ' {
            1
        } else if code < 0x80 {
            3
        } else if code < 0x800 {
            6
        } else if code < 0x10000 {
            9
        } else {
            12
        };
        assert(text@.take(i + 1).drop_last() =~= text@.take(i as int));
        total = total + size;
        i = i + 1;
    }
    assert(text@.take(i as int) =~= text@);
    total
}

/// How many bytes the pairs take in a query, or nothing where that is no position.
fn size_of_pairs(pairs: &Vec<(String, String)>) -> (r: Option<u128>)
    ensures
        match r {
            Some(n) => n == pairs_size(pair_texts(pairs@)) && n <= MAX_POSITION,
            None => pairs_size(pair_texts(pairs@)) > MAX_POSITION,
        },
{
    let mut total: u128 = 0;
    let mut i: usize = 0;
    while i < pairs.len()
        invariant
            i <= pairs.len(),
            total == pairs_size(pair_texts(pairs@).take(i as int)),
            total <= MAX_POSITION,
        decreases pairs.len() - i,
    {
        let ghost all = pair_texts(pairs@);
        let key: u128 = size_of_text(pairs[i].0.as_str());
        let value: u128 = size_of_text(pairs[i].1.as_str());
        proof {
            assert(all.take(i + 1).drop_last() =~= all.take(i as int));
            assert(all.take(i + 1).last() == (pairs@[i as int].0@, pairs@[i as int].1@));
            pairs_size_grows(all, i + 1);
        }
        total = total + key + value + 2;
        if total > MAX_POSITION as u128 {
            return None;
        }
        i = i + 1;
    }
    assert(pair_texts(pairs@).take(i as int) =~= pair_texts(pairs@));
    Some(total)
}

proof fn length_before_is_within(text: Seq<char>, query_too: bool)
    ensures
        0 <= length_before(text, query_too) <= text.len(),
        length_before(text, true) <= length_before(text, false),
    decreases text.len(),
{
    if text.len() > 0 {
        length_before_is_within(text.drop_last(), query_too);
        length_before_is_within(text.drop_last(), false);
        length_before_is_within(text.drop_last(), true);
    }
}

proof fn length_before_stays(text: Seq<char>, query_too: bool, n: int)
    requires
        0 <= n <= text.len(),
        length_before(text.take(n), query_too) < n,
    ensures
        length_before(text, query_too) == length_before(text.take(n), query_too),
    decreases text.len() - n,
{
    if n < text.len() {
        assert(text.take(n + 1).drop_last() =~= text.take(n));
        length_before_stays(text, query_too, n + 1);
    } else {
        assert(text.take(n) =~= text);
    }
}

fn count_before(chars: &Vec<char>, query_too: bool) -> (r: usize)
    ensures
        r == length_before(chars@, query_too),
{
    let mut i: usize = 0;
    while i < chars.len()
        invariant
            i <= chars.len(),
            length_before(chars@.take(i as int), query_too) == i,
        decreases chars.len() - i,
    {
        assert(chars@.take(i + 1).drop_last() =~= chars@.take(i as int));
        if chars[i] == '#' || (query_too && chars[i] == '?') {
            proof {
                length_before_stays(chars@, query_too, i + 1);
            }
            return i;
        }
        i = i + 1;
    }
    assert(chars@.take(i as int) =~= chars@);
    i
}

/// Whether these are positions in an address: where its path ends, where that ends once
/// it is another one, and where the fragment then starts.
pub fn positions_fit(path_end: u128, new_path_end: u128, fragment_place: Option<u128>) -> (r: bool)
    ensures
        r == are_positions(
            path_end as int,
            new_path_end as int,
            match fragment_place {
                Some(place) => Some(place as int),
                None => None,
            },
        ),
{
    let last: u128 = MAX_POSITION as u128;
    path_end <= last && new_path_end <= last && match fragment_place {
        Some(place) => place <= last,
        None => true,
    }
}

fn parts_fit(text: &str, path: &str, new_path: &str, pairs: &Vec<(String, String)>) -> (r: bool)
    requires
        path@.len() <= length_before(text@, true),
    ensures
        r == fits(text@, path@, new_path@, pair_texts(pairs@)),
{
    let chars: Vec<char> = chars_of(text);
    proof {
        length_before_is_within(text@, true);
        length_before_is_within(text@, false);
    }
    let end: usize = count_before(&chars, true);
    let opaque: bool = path.unicode_len() == 0 && end > 0 && chars[end - 1] == ':';
    let new_end: u128 = (end - path.unicode_len()) as u128 + new_path.unicode_len() as u128
        + if opaque {
        2
    } else {
        0
    };
    let before_fragment: usize = count_before(&chars, false);
    if before_fragment == chars.len() {
        return positions_fit(end as u128, new_end, None);
    }
    let query: usize = before_fragment - end;
    match size_of_pairs(pairs) {
        Some(size) => {
            let place: u128 = new_end + (if query <= 1 {
                0
            } else {
                query as u128
            }) + size;
            positions_fit(end as u128, new_end, Some(place))
        },
        None => false,
    }
}

/// Why there is no address.
#[derive(Debug, PartialEq, Eq)]
pub enum ModelsUrlError {
    /// The provider's address is none.
    InvalidBase(String),
    /// The address would be too long.
    TooLong,
}

impl ModelsUrlError {
    /// What is said of it.
    pub fn message(&self) -> (r: String)
        ensures
            r@ == (match *self {
                ModelsUrlError::InvalidBase(text) => text@,
                ModelsUrlError::TooLong => "models address is too long"@,
            }),
    {
        match self {
            ModelsUrlError::InvalidBase(text) => text.clone(),
            ModelsUrlError::TooLong => "models address is too long".to_string(),
        }
    }
}

/// The address that a provider without one has.
pub open spec fn base_text(base_url: Option<String>, codex_backend: bool) -> Seq<char> {
    match base_url {
        Some(url) => url@,
        None => if codex_backend {
            "https://chatgpt.com/backend-api/codex"@
        } else {
            "https://api.openai.com/v1"@
        },
    }
}

/// The address that a provider without one has.
pub fn base_or_default(base_url: &Option<String>, codex_backend: bool) -> (r: String)
    ensures
        r@ == base_text(*base_url, codex_backend),
{
    match base_url {
        Some(url) => url.clone(),
        None => if codex_backend {
            "https://chatgpt.com/backend-api/codex".to_string()
        } else {
            "https://api.openai.com/v1".to_string()
        },
    }
}

/// What is said of a base that is no address.
pub open spec fn invalid_base(base: Seq<char>, why: Seq<char>) -> Seq<char> {
    "invalid models base_url "@ + base + ": "@ + why
}

/// What is said of a base that is no address.
pub fn invalid_base_message(base: &str, why: &str) -> (r: String)
    ensures
        r@ == invalid_base(base@, why@),
{
    let parts: [&str; 4] = ["invalid models base_url ", base, ": ", why];
    proof {
        assert(part_texts(parts@) =~= seq![
            "invalid models base_url "@,
            base@,
            ": "@,
            why@,
        ]);
        reveal_with_fuel(flat, 5);
        assert(flat(part_texts(parts@)) =~= invalid_base(base@, why@));
    }
    concat(&parts)
}

/// The address of the list of models: the base with `/models` behind its path and
/// with the pairs behind its query.
pub open spec fn models_address(
    base: Seq<char>,
    pairs: Seq<(Seq<char>, Seq<char>)>,
) -> Option<Seq<char>> {
    match url_path(base) {
        Ok(path) => if fits(url_text(base), path, models_path_text(path), pairs) {
            Some(url_with(base, models_path_text(path), pairs))
        } else {
            None
        },
        Err(_) => None,
    }
}

/// The address from which the list of models is fetched.
pub fn models_url(
    base_url: &Option<String>,
    params: &Option<Vec<(String, String)>>,
    codex_backend: bool,
    client_version: &str,
) -> (r: Result<String, ModelsUrlError>)
    ensures
        ({
            let base = base_text(*base_url, codex_backend);
            let pairs = models_pairs(*params, client_version@);
            match r {
                Ok(url) => models_address(base, pairs) == Some(url@),
                Err(ModelsUrlError::InvalidBase(text)) => url_path(base) is Err && text@
                    == invalid_base(base, url_path(base)->Err_0),
                Err(ModelsUrlError::TooLong) => url_path(base) is Ok && models_address(
                    base,
                    pairs,
                ) is None,
            }
        }),
{
    let base: String = base_or_default(base_url, codex_backend);
    match path_of(base.as_str()) {
        Ok(base_path) => {
            let path: String = models_path(base_path.as_str());
            let pairs: Vec<(String, String)> = models_query(params, client_version);
            let text: String = text_of(base.as_str());
            if parts_fit(text.as_str(), base_path.as_str(), path.as_str(), &pairs) {
                Ok(with_path_and_pairs(base.as_str(), path.as_str(), &pairs))
            } else {
                Err(ModelsUrlError::TooLong)
            }
        },
        Err(why) => Err(
            ModelsUrlError::InvalidBase(invalid_base_message(base.as_str(), why.as_str())),
        ),
    }
}

} // verus!
