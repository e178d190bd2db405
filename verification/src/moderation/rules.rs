//! The content filter and the link policy of a chat.

use crate::db::models::{ChatSettings, DomainRule, Filter};
use crate::text::{
    has_substring, has_suffix, lower_cased, lowered, str_contains, str_ends_with, str_eq,
    to_ascii_lowercase, to_lowercase, views,
};
use crate::utils::{extract_domains, text_domains};
use vstd::prelude::*;
use vstd::string::StringExecFns;

verus! {

/// What a message was found guilty of.
#[derive(Debug, Clone, Copy, PartialEq, Eq, Structural)]
pub enum ViolationKind {
    /// The text fell under the content filter.
    Filtered,
    /// The text referred to a domain that the link policy denies.
    LinkDenied,
    /// The sender sent more messages than the flood limit allows.
    Flood,
}

/// `regex::Error`, the error of `regex::Regex::new`: carried through, never looked into.
#[verifier::external_type_specification]
#[verifier::external_body]
pub struct ExRegexError(regex::Error);

/// Whether `regex::Regex::new` compiles `pattern`.
pub uninterp spec fn regex_compiles(pattern: Seq<char>) -> bool;

/// Whether the regular expression compiled from `pattern` matches somewhere
/// in `text`, as `regex::Regex::is_match` reports it.
pub uninterp spec fn regex_finds(pattern: Seq<char>, text: Seq<char>) -> bool;

/// `regex::Regex::new` on `pattern`, then `regex::Regex::is_match` on `text`:
/// the compiler's error, or whether the expression matches anywhere in the
/// text. Both depend on the two strings alone; what they are is left to the
/// `regex` crate.
#[verifier::external_body]
pub(crate) fn regex_search(pattern: &str, text: &str) -> (found: Result<bool, regex::Error>)
    ensures
        (found is Ok) == regex_compiles(pattern@),
        found matches Ok(hit) ==> hit == regex_finds(pattern@, text@),
{
    match regex::Regex::new(pattern) {
        Ok(compiled) => Ok(compiled.is_match(text)),
        Err(e) => Err(e),
    }
}

/// Whether a regular-expression rule applies, given the outcome of its
/// search: a pattern that does not compile matches nothing.
pub fn regex_verdict(found: Result<bool, regex::Error>) -> (hit: bool)
    ensures
        hit == (found matches Ok(h) && h),
{
    match found {
        Ok(h) => h,
        Err(_) => false,
    }
}

/// Whether one filter rule applies to `text`.
///
/// A disabled rule never applies. A `text` rule applies when its pattern is a
/// substring of the text, both taken in lower case. A `regex` rule applies
/// when its pattern compiles and matches the text as given. A rule of any
/// other kind never applies.
pub open spec fn rule_matches(text: Seq<char>, rule: Filter) -> bool {
    rule.enabled && if rule.kind@ == "text"@ {
        has_substring(lower_cased(text), lower_cased(rule.pattern@))
    } else if rule.kind@ == "regex"@ {
        regex_compiles(rule.pattern@) && regex_finds(rule.pattern@, text)
    } else {
        false
    }
}

/// Whether any rule of `rules` applies to `text`.
pub open spec fn filters_match(text: Seq<char>, rules: Seq<Filter>) -> bool {
    exists|i: int| 0 <= i < rules.len() && rule_matches(text, #[trigger] rules[i])
}

/// Disabled rules match nothing: where every rule of a list is disabled, no
/// text falls under the filter.
pub proof fn law_disabled_rules_match_nothing(text: Seq<char>, rules: Seq<Filter>)
    requires
        forall|i: int| 0 <= i < rules.len() ==> !(#[trigger] rules[i]).enabled,
    ensures
        !filters_match(text, rules),
{
}

/// An enabled substring rule whose pattern stands in the text, both taken
/// in lower case, puts the text under the filter, whatever the case of the
/// letters of either.
pub proof fn law_contained_pattern_matches(text: Seq<char>, rules: Seq<Filter>, i: int)
    requires
        0 <= i < rules.len(),
        rules[i].enabled,
        rules[i].kind@ == "text"@,
        has_substring(lower_cased(text), lower_cased(rules[i].pattern@)),
    ensures
        filters_match(text, rules),
{
    assert(rule_matches(text, rules[i]));
}

/// Substring rules ignore case: two `text` rules that are both enabled or
/// both disabled, with patterns that differ only in the case of their
/// letters, agree on any two texts that differ only in the case of their
/// letters. Two texts differ only in case where their lower-case forms are
/// the same.
pub proof fn law_substring_rules_ignore_case(
    text_a: Seq<char>,
    rule_a: Filter,
    text_b: Seq<char>,
    rule_b: Filter,
)
    requires
        rule_a.kind@ == "text"@,
        rule_b.kind@ == "text"@,
        rule_a.enabled == rule_b.enabled,
        lower_cased(text_a) == lower_cased(text_b),
        lower_cased(rule_a.pattern@) == lower_cased(rule_b.pattern@),
    ensures
        rule_matches(text_a, rule_a) == rule_matches(text_b, rule_b),
{
}

/// A pattern that does not compile matches nothing: where every rule of a
/// list is a `regex` rule whose pattern the compiler rejects, no text falls
/// under the filter.
pub proof fn law_malformed_patterns_match_nothing(text: Seq<char>, rules: Seq<Filter>)
    requires
        forall|i: int|
            0 <= i < rules.len() ==> (#[trigger] rules[i]).kind@ == "regex"@ && !regex_compiles(
                rules[i].pattern@,
            ),
    ensures
        !filters_match(text, rules),
{
    reveal_strlit("text");
    reveal_strlit("regex");
    assert("text"@ != "regex"@) by {
        assert("text"@.len() == 4);
        assert("regex"@.len() == 5);
    }
}

/// Whether `rule` applies to `text`; `lower` is the text in lower case.
fn filter_applies(text: &str, lower: &str, rule: &Filter) -> (hit: bool)
    requires
        lower@ == lower_cased(text@),
    ensures
        hit == rule_matches(text@, *rule),
{
    if !rule.enabled {
        false
    } else if str_eq(rule.kind.as_str(), "text") {
        let pattern = to_lowercase(rule.pattern.as_str());
        str_contains(lower, pattern.as_str())
    } else if str_eq(rule.kind.as_str(), "regex") {
        regex_verdict(regex_search(rule.pattern.as_str(), text))
    } else {
        false
    }
}

/// Whether `text` falls under the content filter: true exactly when at least
/// one of `filters` applies to it. The rules are tried in order and the
/// first that applies ends the search.
pub fn check_filters(text: &str, filters: &[Filter]) -> (matched: bool)
    ensures
        matched == filters_match(text@, filters@),
{
    let lower = to_lowercase(text);
    let mut i: usize = 0;
    while i < filters.len()
        invariant
            i <= filters.len(),
            lower@ == lower_cased(text@),
            forall|j: int| 0 <= j < i ==> !rule_matches(text@, #[trigger] filters@[j]),
        decreases filters.len() - i,
    {
        if filter_applies(text, lower.as_str(), &filters[i]) {
            return true;
        }
        i += 1;
    }
    false
}

/// Whether a rule for `rule` covers `domain`: the two are equal, or `domain`
/// is a subdomain of `rule`, that is, ends with a dot followed by `rule`.
pub open spec fn domain_matches(domain: Seq<char>, rule: Seq<char>) -> bool {
    domain == rule || has_suffix(domain, seq!['.'] + rule)
}

/// Whether `rule` is an enabled entry of the list `list` that covers
/// `domain`. The entry's domain is taken in ASCII lower case.
pub open spec fn entry_covers(rule: DomainRule, list: Seq<char>, domain: Seq<char>) -> bool {
    rule.enabled && rule.list_type@ == list && domain_matches(domain, lowered(rule.domain@))
}

/// Whether some enabled entry of the list `list` covers `domain`.
pub open spec fn on_list(domain: Seq<char>, rules: Seq<DomainRule>, list: Seq<char>) -> bool {
    exists|i: int| 0 <= i < rules.len() && entry_covers(#[trigger] rules[i], list, domain)
}

/// Whether a message that refers to `domains` breaks the link policy `mode`.
///
/// A message without domains never does. Under `deny_all` any domain does.
/// Under `deny_list` a domain on the deny list does. Under `allow_list` a
/// domain that is not on the allow list does, whatever else the message
/// refers to. Under any other mode nothing does.
pub open spec fn links_violation(
    domains: Seq<Seq<char>>,
    mode: Seq<char>,
    rules: Seq<DomainRule>,
) -> bool {
    domains.len() > 0 && if mode == "deny_all"@ {
        true
    } else if mode == "deny_list"@ {
        exists|j: int| 0 <= j < domains.len() && on_list(#[trigger] domains[j], rules, "deny"@)
    } else if mode == "allow_list"@ {
        exists|j: int| 0 <= j < domains.len() && !on_list(#[trigger] domains[j], rules, "allow"@)
    } else {
        false
    }
}

/// A rule covers its own domain and every subdomain of it.
pub proof fn law_rule_covers_subdomains(label: Seq<char>, rule: Seq<char>)
    ensures
        domain_matches(rule, rule),
        domain_matches(label + seq!['.'] + rule, rule),
{
    let domain = label + seq!['.'] + rule;
    let dotted = seq!['.'] + rule;
    assert(domain.subrange(domain.len() - dotted.len(), domain.len() as int) == dotted);
}

/// Under `deny_list` a message violates as soon as one of its domains is
/// covered by an enabled entry of the deny list.
pub proof fn law_denied_domain_violates(
    domains: Seq<Seq<char>>,
    rules: Seq<DomainRule>,
    j: int,
    i: int,
)
    requires
        0 <= j < domains.len(),
        0 <= i < rules.len(),
        entry_covers(rules[i], "deny"@, domains[j]),
    ensures
        links_violation(domains, "deny_list"@, rules),
{
    mode_names_differ();
    assert(on_list(domains[j], rules, "deny"@));
}

/// Under `allow_list` a message whose domains are all covered by enabled
/// entries of the allow list does not violate.
pub proof fn law_allowed_domains_pass(domains: Seq<Seq<char>>, rules: Seq<DomainRule>)
    requires
        forall|j: int| 0 <= j < domains.len() ==> on_list(#[trigger] domains[j], rules, "allow"@),
    ensures
        !links_violation(domains, "allow_list"@, rules),
{
    mode_names_differ();
}

/// Under `allow_list` one domain that no enabled entry of the allow list
/// covers makes the message violate, whatever else it refers to.
pub proof fn law_unlisted_domain_violates(domains: Seq<Seq<char>>, rules: Seq<DomainRule>, j: int)
    requires
        0 <= j < domains.len(),
        !on_list(domains[j], rules, "allow"@),
    ensures
        links_violation(domains, "allow_list"@, rules),
{
    mode_names_differ();
}

/// `allow_list` denies by default: where the chat has no enabled entry on
/// its allow list, every message that refers to a domain violates.
pub proof fn law_allow_list_denies_by_default(domains: Seq<Seq<char>>, rules: Seq<DomainRule>)
    requires
        domains.len() > 0,
        forall|i: int|
            0 <= i < rules.len() ==> !((#[trigger] rules[i]).enabled && rules[i].list_type@
                == "allow"@),
    ensures
        links_violation(domains, "allow_list"@, rules),
{
    assert(!on_list(domains[0], rules, "allow"@));
    law_unlisted_domain_violates(domains, rules, 0);
}

/// The names of the three active modes are different texts.
proof fn mode_names_differ()
    ensures
        "deny_all"@ != "deny_list"@,
        "deny_all"@ != "allow_list"@,
        "deny_list"@ != "allow_list"@,
{
    reveal_strlit("deny_all");
    reveal_strlit("deny_list");
    reveal_strlit("allow_list");
    assert("deny_all"@.len() == 8);
    assert("deny_list"@.len() == 9);
    assert("allow_list"@.len() == 10);
}

/// Whether `rule` is an enabled entry of the list `list` that covers `domain`.
fn rule_covers(rule: &DomainRule, list: &str, domain: &str) -> (covers: bool)
    ensures
        covers == entry_covers(*rule, list@, domain@),
{
    if !rule.enabled || !str_eq(rule.list_type.as_str(), list) {
        return false;
    }
    let entry = to_ascii_lowercase(rule.domain.as_str());
    if str_eq(domain, entry.as_str()) {
        return true;
    }
    let dotted = String::from_str(".").concat(entry.as_str());
    proof {
        reveal_strlit(".");
        assert("."@ == seq!['.']);
    }
    str_ends_with(domain, dotted.as_str())
}

/// Whether some enabled entry of the list `list` covers `domain`.
fn domain_on_list(domain: &str, rules: &[DomainRule], list: &str) -> (listed: bool)
    ensures
        listed == on_list(domain@, rules@, list@),
{
    let mut i: usize = 0;
    while i < rules.len()
        invariant
            i <= rules.len(),
            forall|k: int| 0 <= k < i ==> !entry_covers(#[trigger] rules@[k], list@, domain@),
        decreases rules.len() - i,
    {
        if rule_covers(&rules[i], list, domain) {
            return true;
        }
        i += 1;
    }
    false
}

/// Whether some domain of `domains` is on the list `list` (`wanted` true),
/// or some domain is not on it (`wanted` false).
fn any_domain_listed(domains: &Vec<String>, rules: &[DomainRule], list: &str, wanted: bool) -> (found:
    bool)
    ensures
        found == exists|j: int|
            0 <= j < domains@.len() && on_list(#[trigger] views(domains@)[j], rules@, list@)
                == wanted,
{
    let mut j: usize = 0;
    while j < domains.len()
        invariant
            j <= domains.len(),
            forall|k: int|
                0 <= k < j ==> on_list(#[trigger] views(domains@)[k], rules@, list@) != wanted,
        decreases domains.len() - j,
    {
        if domain_on_list(domains[j].as_str(), rules, list) == wanted {
            assert(on_list(views(domains@)[j as int], rules@, list@) == wanted);
            return true;
        }
        j += 1;
    }
    false
}

/// Whether a message that refers to `domains` breaks the link policy of
/// `settings`, given the chat's domain rules.
pub fn links_violate(domains: &Vec<String>, settings: &ChatSettings, rules: &[DomainRule]) -> (violates:
    bool)
    ensures
        violates == links_violation(views(domains@), settings.links_mode@, rules@),
{
    if domains.len() == 0 {
        return false;
    }
    let mode = settings.links_mode.as_str();
    if str_eq(mode, "deny_all") {
        true
    } else if str_eq(mode, "deny_list") {
        any_domain_listed(domains, rules, "deny", true)
    } else if str_eq(mode, "allow_list") {
        any_domain_listed(domains, rules, "allow", false)
    } else {
        false
    }
}

/// Whether `text` breaks the link policy of `settings`: the domains it
/// refers to are extracted and held against the policy's mode and the chat's
/// domain rules.
pub fn check_links(text: &str, settings: &ChatSettings, rules: &[DomainRule]) -> (violates: bool)
    ensures
        violates == links_violation(text_domains(text@), settings.links_mode@, rules@),
{
    let domains = extract_domains(text);
    links_violate(&domains, settings, rules)
}

} // verus!
