//! Input validation for dictionary rules and synthesis text, and the
//! SSML sanitizer.
use vstd::prelude::*;

verus! {

use crate::constants::MAX_REGEX_PATTERN_LENGTH;
use crate::constants::MAX_RULE_NAME_LENGTH;
use crate::constants::MAX_SSML_LENGTH;
use crate::constants::MAX_TTS_TEXT_LENGTH;
use crate::errors::NCBError;
use crate::regex_cache::regex_compile;
use crate::regex_cache::regex_ok;
use crate::text::all_space;
use crate::text::contains_sub;
use crate::text::is_blank;
use crate::text::char_whitespace;
use crate::text::spec_ascii_lower;
use crate::text::spec_replace_all;
use crate::text::spec_truncate;

/// Whether `char::is_alphanumeric` holds: a property of the character
/// alone, given by the Unicode tables.
pub uninterp spec fn char_alphanumeric(c: char) -> bool;

/// Relies on char::is_alphanumeric: a fixed property of the character.
#[verifier::external_body]
fn is_alphanumeric_char(c: char) -> (r: bool)
    ensures
        r == char_alphanumeric(c),
{
    c.is_alphanumeric()
}

/// A character allowed in a dictionary rule name.
pub open spec fn rule_name_char_ok(c: char) -> bool {
    char_alphanumeric(c) || char_whitespace(c) || c == '_' || c == '-'
}

/// A rule name is non-blank, within the length ceiling, and made of
/// allowed characters only.
pub open spec fn spec_rule_name_ok(s: Seq<char>) -> bool {
    &&& !all_space(s)
    &&& s.len() <= MAX_RULE_NAME_LENGTH
    &&& forall|i: int| 0 <= i < s.len() ==> rule_name_char_ok(#[trigger] s[i])
}

/// Accepts a dictionary rule name, rejecting blank names, names over the
/// ceiling, and names with characters outside letters, digits, spaces,
/// hyphens and underscores.
#[verifier::loop_isolation(false)]
pub fn validate_rule_name(name: &str) -> (r: Result<(), NCBError>)
    ensures
        r is Ok <==> spec_rule_name_ok(name@),
        all_space(name@) ==> r matches Err(NCBError::InvalidInput(_)),
        !all_space(name@) && name@.len() > MAX_RULE_NAME_LENGTH ==> r matches Err(
            NCBError::InvalidInput(_),
        ),
        r is Err ==> r matches Err(NCBError::InvalidInput(_)),
{
    if is_blank(name) {
        return Result::Err(NCBError::invalid_input("Rule name cannot be empty"));
    }
    let chars = crate::text::str_to_chars(name);
    if chars.len() > MAX_RULE_NAME_LENGTH {
        return Result::Err(NCBError::invalid_input("Rule name too long"));
    }
    let mut i: usize = 0;
    while i < chars.len()
        invariant
            i <= chars@.len(),
            forall|k: int| 0 <= k < i ==> rule_name_char_ok(#[trigger] chars@[k]),
        decreases chars@.len() - i,
    {
        let c = chars[i];
        let ok = if is_alphanumeric_char(c) {
            true
        } else if crate::text::is_whitespace_char(c) {
            true
        } else {
            c == '_' || c == '-'
        };
        if !ok {
            proof {
                assert(!rule_name_char_ok(chars@[i as int]));
            }
            return Result::Err(
                NCBError::invalid_input(
                    "Rule name contains invalid characters (only alphanumeric, spaces, hyphens, and underscores allowed)",
                ),
            );
        }
        i = i + 1;
    }
    Result::Ok(())
}

/// The lowered text holds a construct that must not reach a synthesis
/// backend.
pub open spec fn spec_prohibited(s: Seq<char>) -> bool {
    let low = spec_ascii_lower(s);
    ||| contains_sub(low, "<script"@)
    ||| contains_sub(low, "javascript:"@)
    ||| contains_sub(low, "data:"@)
    ||| contains_sub(low, "<?xml"@)
}

/// Text is readable: non-blank, within the synthesis ceiling, and free
/// of prohibited constructs.
pub open spec fn spec_tts_text_ok(s: Seq<char>) -> bool {
    &&& !all_space(s)
    &&& s.len() <= MAX_TTS_TEXT_LENGTH
    &&& !spec_prohibited(s)
}

/// Accepts message text for synthesis, rejecting blank text, text over
/// the ceiling, and text with prohibited constructs.
pub fn validate_tts_text(text: &str) -> (r: Result<(), NCBError>)
    ensures
        r is Ok <==> spec_tts_text_ok(text@),
        all_space(text@) ==> r matches Err(NCBError::InvalidInput(_)),
        !all_space(text@) && text@.len() > MAX_TTS_TEXT_LENGTH ==> (r matches Err(NCBError::TextTooLong { max_length })
            && max_length == MAX_TTS_TEXT_LENGTH),
        !all_space(text@) && text@.len() <= MAX_TTS_TEXT_LENGTH && spec_prohibited(text@) ==> r
            matches Err(NCBError::ProhibitedContent),
{
    if is_blank(text) {
        return Result::Err(NCBError::invalid_input("Text cannot be empty"));
    }
    let chars = crate::text::str_to_chars(text);
    if chars.len() > MAX_TTS_TEXT_LENGTH {
        return Result::Err(NCBError::text_too_long(MAX_TTS_TEXT_LENGTH));
    }
    let lowered = crate::text::ascii_lowercase(text);
    let low = lowered.as_str();
    if crate::text::contains_str(low, "<script") {
        return Result::Err(NCBError::ProhibitedContent);
    }
    if crate::text::contains_str(low, "javascript:") {
        return Result::Err(NCBError::ProhibitedContent);
    }
    if crate::text::contains_str(low, "data:") {
        return Result::Err(NCBError::ProhibitedContent);
    }
    if crate::text::contains_str(low, "<?xml") {
        return Result::Err(NCBError::ProhibitedContent);
    }
    Result::Ok(())
}

/// Replacement text is non-blank and within the synthesis ceiling.
pub open spec fn spec_replacement_ok(s: Seq<char>) -> bool {
    !all_space(s) && s.len() <= MAX_TTS_TEXT_LENGTH
}

/// Accepts replacement text for a dictionary rule.
pub fn validate_replacement_text(text: &str) -> (r: Result<(), NCBError>)
    ensures
        r is Ok <==> spec_replacement_ok(text@),
        all_space(text@) ==> r matches Err(NCBError::InvalidInput(_)),
        !all_space(text@) && text@.len() > MAX_TTS_TEXT_LENGTH ==> (r matches Err(NCBError::TextTooLong { max_length })
            && max_length == MAX_TTS_TEXT_LENGTH),
{
    if is_blank(text) {
        return Result::Err(NCBError::invalid_input("Replacement text cannot be empty"));
    }
    let chars = crate::text::str_to_chars(text);
    if chars.len() > MAX_TTS_TEXT_LENGTH {
        return Result::Err(NCBError::text_too_long(MAX_TTS_TEXT_LENGTH));
    }
    Result::Ok(())
}

/// The sanitized form of SSML input: script openings escaped, script-like
/// schemes removed, and the result cut to the SSML length ceiling.
pub open spec fn spec_sanitize_ssml(s: Seq<char>) -> Seq<char> {
    spec_truncate(
        spec_replace_all(
            spec_replace_all(spec_replace_all(s, "<script"@, "&lt;script"@), "javascript:"@, ""@),
            "data:"@,
            ""@,
        ),
        MAX_SSML_LENGTH as int,
    )
}

/// Escapes script openings, strips script-like schemes, and bounds the
/// length of SSML text before it is handed to a synthesis backend.
pub fn sanitize_ssml(text: &str) -> (r: String)
    ensures
        r@ == spec_sanitize_ssml(text@),
{
    let step1 = crate::text::replace_all(text, "<script", "&lt;script");
    let step2 = crate::text::replace_all(step1.as_str(), "javascript:", "");
    let step3 = crate::text::replace_all(step2.as_str(), "data:", "");
    crate::text::truncate_chars(step3.as_str(), MAX_SSML_LENGTH)
}

/// A construct that the pattern blocklist refuses: group constructs and
/// stacked quantifiers that commonly accompany catastrophic
/// backtracking.
pub open spec fn spec_redos_blocked(p: Seq<char>) -> bool {
    ||| contains_sub(p, "(?:"@)
    ||| contains_sub(p, "(?="@)
    ||| contains_sub(p, "(?!"@)
    ||| contains_sub(p, "(?<="@)
    ||| contains_sub(p, "(?<!"@)
    ||| contains_sub(p, "**"@)
    ||| contains_sub(p, "+*"@)
    ||| contains_sub(p, "*+"@)
}

/// A pattern is acceptable: free of blocklisted constructs, within the
/// pattern length ceiling, and valid regex syntax.
pub open spec fn spec_regex_pattern_ok(p: Seq<char>) -> bool {
    &&& !spec_redos_blocked(p)
    &&& p.len() <= MAX_REGEX_PATTERN_LENGTH
    &&& regex_ok(p)
}

/// Accepts a dictionary rule pattern, rejecting blocklisted constructs,
/// over-long patterns, and patterns that fail to compile.
pub fn validate_regex_pattern(pattern: &str) -> (r: Result<(), NCBError>)
    ensures
        r is Ok <==> spec_regex_pattern_ok(pattern@),
        r is Err ==> r matches Err(NCBError::InvalidRegex(_)),
{
    if crate::text::contains_str(pattern, "(?:") {
        return Result::Err(NCBError::invalid_regex("Pattern contains potentially dangerous construct"));
    }
    if crate::text::contains_str(pattern, "(?=") {
        return Result::Err(NCBError::invalid_regex("Pattern contains potentially dangerous construct"));
    }
    if crate::text::contains_str(pattern, "(?!") {
        return Result::Err(NCBError::invalid_regex("Pattern contains potentially dangerous construct"));
    }
    if crate::text::contains_str(pattern, "(?<=") {
        return Result::Err(NCBError::invalid_regex("Pattern contains potentially dangerous construct"));
    }
    if crate::text::contains_str(pattern, "(?<!") {
        return Result::Err(NCBError::invalid_regex("Pattern contains potentially dangerous construct"));
    }
    if crate::text::contains_str(pattern, "**") {
        return Result::Err(NCBError::invalid_regex("Pattern contains potentially dangerous construct"));
    }
    if crate::text::contains_str(pattern, "+*") {
        return Result::Err(NCBError::invalid_regex("Pattern contains potentially dangerous construct"));
    }
    if crate::text::contains_str(pattern, "*+") {
        return Result::Err(NCBError::invalid_regex("Pattern contains potentially dangerous construct"));
    }
    let chars = crate::text::str_to_chars(pattern);
    if chars.len() > MAX_REGEX_PATTERN_LENGTH {
        return Result::Err(NCBError::invalid_regex("Pattern too long"));
    }
    match regex_compile(pattern) {
        Result::Ok(_) => Result::Ok(()),
        Result::Err(_) => Result::Err(NCBError::invalid_regex("Invalid regex syntax")),
    }
}

} // verus!
