//! Container registry retention rules.

use crate::text::{chars_of, contains_chars, contains_seq, owned};
use vstd::prelude::*;

verus! {

/// A repository selector of a retention rule's scope.
#[derive(Debug, Clone)]
pub struct CreateRetentionRepositorySelector {
    pub decoration: String,
    pub kind: String,
    pub pattern: String,
}

/// The scope of a retention rule.
#[derive(Debug, Clone)]
pub struct CreateRetentionScopeSelectors {
    pub repository: Option<Vec<CreateRetentionRepositorySelector>>,
}

/// A tag selector of a retention rule.
#[derive(Debug, Clone)]
pub struct CreateRetentionTagSelector {
    pub decoration: String,
    pub kind: String,
    pub pattern: String,
}

/// Request to create a retention rule. `params` holds the template's named parameters.
#[derive(Debug, Clone)]
pub struct CreateRetentionRuleRequest {
    pub action: Option<String>,
    pub template: String,
    pub params: Option<Vec<(String, u32)>>,
    pub scope_selectors: Option<CreateRetentionScopeSelectors>,
    pub tag_selectors: Option<Vec<CreateRetentionTagSelector>>,
}

/// The parameter name that a template counts with: `nDays` for a template about days,
/// `latestPushedK` otherwise.
pub open spec fn count_param_name(template: Seq<char>) -> Seq<char> {
    if contains_seq(template, "Days"@) {
        "nDays"@
    } else {
        "latestPushedK"@
    }
}

/// A selector matches with the `doublestar` kind, decorated as given.
pub open spec fn doublestar_selector(decoration: Seq<char>, kind: Seq<char>, pattern: Seq<char>, want_decoration: Seq<char>, want_pattern: Seq<char>) -> bool {
    decoration == want_decoration && kind == "doublestar"@ && pattern == want_pattern
}

/// The request that `registry retention-rule create` sends: a rule that retains, with the
/// template; the count, when given, as the template's count parameter; the repository
/// pattern, when given, as the only repository selector (`repoMatches`); and the tag pattern
/// as the only tag selector (`matches`), all of the `doublestar` kind.
pub fn retention_rule_request(template: String, tag_pattern: String, repo_pattern: Option<String>, count: Option<u32>) -> (r: CreateRetentionRuleRequest)
    ensures
        r.action matches Some(a) && a@ == "retain"@,
        r.template@ == template@,
        match count {
            Some(c) => r.params matches Some(ps) && ps@.len() == 1 && ps@[0].0@ == count_param_name(template@) && ps@[0].1 == c,
            None => r.params is None,
        },
        match repo_pattern {
            Some(p) => r.scope_selectors matches Some(s) && s.repository matches Some(rs) && rs@.len() == 1
                && doublestar_selector(rs@[0].decoration@, rs@[0].kind@, rs@[0].pattern@, "repoMatches"@, p@),
            None => r.scope_selectors is None,
        },
        r.tag_selectors matches Some(ts) && ts@.len() == 1
            && doublestar_selector(ts@[0].decoration@, ts@[0].kind@, ts@[0].pattern@, "matches"@, tag_pattern@),
{
    let params = match count {
        Some(c) => {
            let about_days = contains_chars(&chars_of(template.as_str()), &chars_of("Days"));
            let name = if about_days { owned("nDays") } else { owned("latestPushedK") };
            let mut ps: Vec<(String, u32)> = Vec::new();
            ps.push((name, c));
            Some(ps)
        },
        None => None,
    };
    let scope_selectors = match repo_pattern {
        Some(pattern) => {
            let mut rs: Vec<CreateRetentionRepositorySelector> = Vec::new();
            rs.push(CreateRetentionRepositorySelector {
                decoration: owned("repoMatches"),
                kind: owned("doublestar"),
                pattern,
            });
            Some(CreateRetentionScopeSelectors { repository: Some(rs) })
        },
        None => None,
    };
    let mut ts: Vec<CreateRetentionTagSelector> = Vec::new();
    ts.push(CreateRetentionTagSelector { decoration: owned("matches"), kind: owned("doublestar"), pattern: tag_pattern });
    CreateRetentionRuleRequest {
        action: Some(owned("retain")),
        template,
        params,
        scope_selectors,
        tag_selectors: Some(ts),
    }
}

} // verus!
