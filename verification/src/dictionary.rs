//! Guild-scoped text-substitution rules and the normalizer that applies
//! them in order, each rule seeing the output of the previous one.
use vstd::prelude::*;

verus! {

use crate::regex_cache::RegexCache;
use crate::regex_cache::regex_replaced;
use crate::regex_cache::regex_replace_all;
use crate::text::contains_sub;
use crate::text::lemma_replace_all_absent;
use crate::text::replace_all;
use crate::text::spec_replace_all;

/// One substitution rule: a literal or regex pattern and its replacement.
#[derive(Debug, Clone)]
pub struct Rule {
    pub id: String,
    pub is_regex: bool,
    pub rule: String,
    pub to: String,
}

/// The ordered rule list of one guild.
#[derive(Debug, Clone)]
pub struct Dictionary {
    pub rules: Vec<Rule>,
}

impl Dictionary {
    /// The default dictionary: web addresses are read as "URL" and fenced
    /// code blocks as "code".
    pub fn new() -> (r: Self)
        ensures
            r.rules@.len() == 2,
            r.rules@[0].id@ == "url"@,
            r.rules@[0].is_regex,
            (r.rules@[0].rule@ == "(http://|https://){1}[\\w\\.\\-/:\\#\\?=\\&;%\\~\\+]+"@),
            r.rules@[0].to@ == "URL"@,
            r.rules@[1].id@ == "code"@,
            r.rules@[1].is_regex,
            (r.rules@[1].rule@ == "```(.|\\n)*```"@),
            r.rules@[1].to@ == "code"@,
    {
        let mut rules: Vec<Rule> = Vec::new();
        rules.push(
            Rule {
                id: "url".to_owned(),
                is_regex: true,
                rule: "(http://|https://){1}[\\w\\.\\-/:\\#\\?=\\&;%\\~\\+]+".to_owned(),
                to: "URL".to_owned(),
            },
        );
        rules.push(
            Rule {
                id: "code".to_owned(),
                is_regex: true,
                rule: "```(.|\\n)*```".to_owned(),
                to: "code".to_owned(),
            },
        );
        Dictionary { rules }
    }
}

/// The text after one rule: a regex rule whose pattern passes the
/// compile-path checks replaces its matches, one whose pattern is
/// refused is skipped, and a literal rule replaces every occurrence of
/// its pattern.
pub open spec fn spec_apply_rule(rule: Rule, t: Seq<char>) -> Seq<char> {
    if rule.is_regex {
        if crate::validation::spec_regex_pattern_ok(rule.rule@) {
            regex_replaced(rule.rule@, t, rule.to@)
        } else {
            t
        }
    } else {
        spec_replace_all(t, rule.rule@, rule.to@)
    }
}

/// The text after all rules, applied in list order.
pub open spec fn spec_apply_rules(rules: Seq<Rule>, t: Seq<char>) -> Seq<char>
    decreases rules.len(),
{
    if rules.len() == 0 {
        t
    } else {
        spec_apply_rules(rules.skip(1), spec_apply_rule(rules[0], t))
    }
}

/// Applies every rule in order to `text`; later rules see the output of
/// earlier ones, and a regex rule whose pattern fails to compile is
/// skipped rather than failing the whole pass.
#[verifier::loop_isolation(false)]
pub fn apply_rules(cache: &mut RegexCache, rules: &Vec<Rule>, text: String) -> (r: String)
    requires
        old(cache).wf(),
    ensures
        final(cache).wf(),
        r@ == spec_apply_rules(rules@, text@),
{
    let ghost text0 = text@;
    let mut cur = text;
    let mut i: usize = 0;
    proof {
        assert(rules@.skip(0) =~= rules@);
    }
    while i < rules.len()
        invariant
            i <= rules@.len(),
            cache.wf(),
            spec_apply_rules(rules@, text@) == spec_apply_rules(rules@.skip(i as int), cur@),
        decreases rules@.len() - i,
    {
        let ghost rem = rules@.skip(i as int);
        proof {
            assert(rem[0] == rules@[i as int]);
            assert(rem.skip(1) =~= rules@.skip(i + 1));
        }
        let rule = &rules[i];
        if rule.is_regex {
            match cache.get_cached_regex(rule.rule.as_str()) {
                Result::Ok(re) => {
                    cur = regex_replace_all(&re, cur.as_str(), rule.to.as_str());
                },
                Result::Err(_) => {
                    // An invalid pattern must never fail the whole pipeline.
                },
            }
        } else {
            cur = replace_all(cur.as_str(), rule.rule.as_str(), rule.to.as_str());
        }
        i = i + 1;
    }
    proof {
        assert(rules@.skip(i as int) =~= Seq::<Rule>::empty());
    }
    cur
}

/// Law: a text in which no literal rule's pattern occurs any more is a
/// fixed point of normalization.
pub proof fn lemma_apply_rules_fixed_point(rules: Seq<Rule>, y: Seq<char>)
    requires
        forall|k: int| 0 <= k < rules.len() ==> !(#[trigger] rules[k]).is_regex,
        forall|k: int| 0 <= k < rules.len() ==> !contains_sub(y, (#[trigger] rules[k]).rule@),
    ensures
        spec_apply_rules(rules, y) == y,
    decreases rules.len(),
{
    if rules.len() > 0 {
        lemma_replace_all_absent(y, rules[0].rule@, rules[0].to@);
        assert(spec_apply_rule(rules[0], y) == y);
        assert forall|k: int| 0 <= k < rules.skip(1).len() implies !(#[trigger] rules.skip(
            1,
        )[k]).is_regex && !contains_sub(y, rules.skip(1)[k].rule@) by {
            assert(rules.skip(1)[k] == rules[k + 1]);
        }
        lemma_apply_rules_fixed_point(rules.skip(1), y);
    }
}

/// Law: normalization by literal rules is idempotent whenever one pass
/// leaves no rule's pattern in the output — in particular for
/// non-overlapping literal rule sets whose replacements reintroduce no
/// pattern. Applying the rules twice yields the same text as applying
/// them once.
pub proof fn lemma_apply_rules_idempotent(rules: Seq<Rule>, s: Seq<char>)
    requires
        forall|k: int| 0 <= k < rules.len() ==> !(#[trigger] rules[k]).is_regex,
        forall|k: int|
            0 <= k < rules.len() ==> !contains_sub(
                spec_apply_rules(rules, s),
                (#[trigger] rules[k]).rule@,
            ),
    ensures
        spec_apply_rules(rules, spec_apply_rules(rules, s)) == spec_apply_rules(rules, s),
{
    lemma_apply_rules_fixed_point(rules, spec_apply_rules(rules, s));
}

} // verus!
