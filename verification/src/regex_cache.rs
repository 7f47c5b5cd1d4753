//! Regular-expression compilation and replacement, behind trusted
//! declarations of the `regex` crate, plus the pattern-keyed LRU
//! compilation cache backed by the `lru` crate.
use std::num::NonZeroUsize;

use vstd::prelude::*;

verus! {

use crate::errors::NCBError;

#[verifier::external_type_specification]
#[verifier::external_body]
pub struct ExRegex(regex::Regex);

#[verifier::external_type_specification]
#[verifier::external_body]
#[verifier::reject_recursive_types(K)]
#[verifier::reject_recursive_types(V)]
#[verifier::reject_recursive_types(S)]
pub struct ExLruCache<K, V, S>(lru::LruCache<K, V, S>);

/// Whether `regex::Regex::new` accepts the pattern; compilation is a
/// function of the pattern text alone.
pub uninterp spec fn regex_ok(pattern: Seq<char>) -> bool;

/// The pattern a compiled regex was built from (what `Regex::as_str`
/// hands back). Every regex this library holds comes from `Regex::new`
/// or a clone of one, so the default builder configuration is implied.
pub uninterp spec fn regex_source(re: regex::Regex) -> Seq<char>;

/// What `Regex::replace_all` with a literal (non-expanding) replacement
/// returns: for default-built regexes — the only kind this library
/// holds — a function of the pattern, the haystack and the replacement.
pub uninterp spec fn regex_replaced(pattern: Seq<char>, text: Seq<char>, rep: Seq<char>) -> Seq<
    char,
>;

/// Relies on regex::Regex::new: compiles `pattern`, succeeding exactly
/// when the pattern is valid syntax (a deterministic property of the
/// pattern text); on success the compiled value keeps `pattern` as its
/// source.
#[verifier::external_body]
pub(crate) fn regex_compile(pattern: &str) -> (r: Result<regex::Regex, String>)
    ensures
        r is Ok <==> regex_ok(pattern@),
        r matches Ok(re) ==> regex_source(re) == pattern@,
{
    regex::Regex::new(pattern).map_err(|e| e.to_string())
}

/// Relies on regex::Regex::replace_all with regex::NoExpand: replaces
/// every non-overlapping match with the literal replacement; the result
/// depends only on the compiled pattern, the haystack and the replacement.
#[verifier::external_body]
pub(crate) fn regex_replace_all(re: &regex::Regex, text: &str, rep: &str) -> (r: String)
    ensures
        r@ == regex_replaced(regex_source(*re), text@, rep@),
{
    re.replace_all(text, regex::NoExpand(rep)).into_owned()
}

/// Relies on regex::Regex::clone: the clone keeps the same source pattern.
#[verifier::external_body]
pub(crate) fn regex_clone(re: &regex::Regex) -> (r: regex::Regex)
    ensures
        regex_source(r) == regex_source(*re),
{
    re.clone()
}

/// What the pattern-keyed compilation cache holds.
pub uninterp spec fn lru_regex_contents(c: lru::LruCache<String, regex::Regex, std::collections::hash_map::RandomState>) -> Map<
    Seq<char>,
    regex::Regex,
>;

/// Relies on lru::LruCache::with_hasher: the new cache is empty.
#[verifier::external_body]
fn lru_regex_new(cap: usize) -> (r: lru::LruCache<String, regex::Regex, std::collections::hash_map::RandomState>)
    requires
        cap >= 1,
    ensures
        (lru_regex_contents(r) == Map::<Seq<char>, regex::Regex>::empty()),
{
    lru::LruCache::with_hasher(
        NonZeroUsize::new(cap).unwrap(),
        std::collections::hash_map::RandomState::new(),
    )
}

/// Relies on lru::LruCache::peek: returns the entry stored under the key,
/// if any, without touching recency; the value is handed out as a clone.
#[verifier::external_body]
fn lru_regex_peek(c: &lru::LruCache<String, regex::Regex, std::collections::hash_map::RandomState>, k: &str) -> (r: Option<regex::Regex>)
    ensures
        r is Some <==> lru_regex_contents(*c).contains_key(k@),
        r matches Some(re) ==> re == lru_regex_contents(*c)[k@],
{
    c.peek(k).cloned()
}

/// Relies on lru::LruCache::put: stores the pair under the key; at
/// capacity the least-recently-used other entry is dropped, so every
/// surviving key maps to the value it had before.
#[verifier::external_body]
fn lru_regex_put(c: &mut lru::LruCache<String, regex::Regex, std::collections::hash_map::RandomState>, k: &str, v: regex::Regex)
    ensures
        lru_regex_contents(*final(c)).contains_pair(k@, v),
        forall|k2: Seq<char>|
            k2 != k@ && lru_regex_contents(*final(c)).contains_key(k2) ==> lru_regex_contents(
                *old(c),
            ).contains_pair(k2, lru_regex_contents(*final(c))[k2]),
{
    c.put(k.to_owned(), v);
}

/// LRU cache of compiled regexes, keyed by the raw pattern string.
pub struct RegexCache {
    cache: lru::LruCache<String, regex::Regex, std::collections::hash_map::RandomState>,
}

impl RegexCache {
    /// Every cached regex stems from a pattern that passed validation
    /// (blocklist, length ceiling and compilation) and is keyed by it.
    pub closed spec fn wf(self) -> bool {
        forall|k: Seq<char>|
            lru_regex_contents(self.cache).contains_key(k)
                ==> crate::validation::spec_regex_pattern_ok(k) && regex_source(
                #[trigger] lru_regex_contents(self.cache)[k],
            ) == k
    }

    pub fn new(cap: usize) -> (r: Self)
        requires
            cap >= 1,
        ensures
            r.wf(),
    {
        RegexCache { cache: lru_regex_new(cap) }
    }

    /// Compiles `pattern`, serving repeats from the cache. A fresh
    /// pattern is first held to the compile-path checks — the blocklist,
    /// the length ceiling, and compilation — and only then cached; a
    /// compiled value always stems from the requested pattern, and a
    /// pattern that fails any check is refused and never cached.
    pub fn get_cached_regex(&mut self, pattern: &str) -> (r: Result<regex::Regex, NCBError>)
        requires
            old(self).wf(),
        ensures
            final(self).wf(),
            r is Ok <==> crate::validation::spec_regex_pattern_ok(pattern@),
            r matches Ok(re) ==> regex_source(re) == pattern@,
            r is Err ==> r matches Err(NCBError::InvalidRegex(_)),
    {
        let hit = lru_regex_peek(&self.cache, pattern);
        match hit {
            Option::Some(re) => {
                proof {
                    assert(regex_source(re) == pattern@);
                }
                Result::Ok(re)
            },
            Option::None => {
                match crate::validation::validate_regex_pattern(pattern) {
                    Result::Err(e) => {
                        let mut msg = pattern.to_owned();
                        msg.append(": ");
                        match &e {
                            NCBError::InvalidRegex(detail) => {
                                msg.append(detail.as_str());
                            },
                            _ => {
                                proof {
                                    assert(false);
                                }
                            },
                        }
                        Result::Err(NCBError::InvalidRegex(msg))
                    },
                    Result::Ok(_) => {
                        match regex_compile(pattern) {
                            Result::Ok(re) => {
                                let kept = regex_clone(&re);
                                lru_regex_put(&mut self.cache, pattern, kept);
                                Result::Ok(re)
                            },
                            Result::Err(e) => {
                                // Validation proved the pattern compiles.
                                proof {
                                    assert(false);
                                }
                                Result::Err(NCBError::InvalidRegex(e))
                            },
                        }
                    },
                }
            },
        }
    }
}

/// Replaces web addresses with " URL " and fenced code blocks with
/// "code"; a pattern that does not compile leaves that pass out.
pub open spec fn spec_remove_url(text: Seq<char>) -> Seq<char> {
    let url_pat = "(http://|https://){1}[\\w\\.\\-/:\\#\\?=\\&;%\\~\\+]+"@;
    let code_pat = "```(.*)\n(.*)\n```"@;
    let step1 = if regex_ok(url_pat) {
        regex_replaced(url_pat, text, " URL "@)
    } else {
        text
    };
    if regex_ok(code_pat) {
        regex_replaced(code_pat, step1, "code"@)
    } else {
        step1
    }
}

/// Strips web addresses and fenced code blocks from message text before
/// it is read aloud.
pub fn remove_url(text: String) -> (r: String)
    ensures
        r@ == spec_remove_url(text@),
{
    let step1 = match regex_compile("(http://|https://){1}[\\w\\.\\-/:\\#\\?=\\&;%\\~\\+]+") {
        Result::Ok(re) => regex_replace_all(&re, text.as_str(), " URL "),
        Result::Err(_) => text,
    };
    match regex_compile("```(.*)\n(.*)\n```") {
        Result::Ok(re) => regex_replace_all(&re, step1.as_str(), "code"),
        Result::Err(_) => step1,
    }
}

} // verus!
