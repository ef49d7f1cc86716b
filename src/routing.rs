//! Matching a push event against the repository table.

use vstd::prelude::*;
use crate::config::{RepoConfig, RepoRule, keys_unique, rules_view};
use crate::payload::{EventModel, WebhookEvent};
use crate::text::text_eq;

verus! {

/// The outcome of routing, as mathematical values.
pub ghost enum RouteOutcome {
    NoSuchRepo,
    BranchMismatch,
    Trigger(RepoRule),
}

/// The outcome of routing an event.
pub enum Decision {
    /// No rule names the event's repository.
    NoSuchRepo,
    /// The repository is configured, but for another ref.
    BranchMismatch,
    /// The event triggers a deployment under this rule (a copy of it).
    Trigger(RepoConfig),
}

impl View for Decision {
    type V = RouteOutcome;

    open spec fn view(&self) -> RouteOutcome {
        match self {
            Decision::NoSuchRepo => RouteOutcome::NoSuchRepo,
            Decision::BranchMismatch => RouteOutcome::BranchMismatch,
            Decision::Trigger(c) => RouteOutcome::Trigger(c@),
        }
    }
}

/// The rule of the first entry named `name`, if any.
pub open spec fn rule_for(rules: Seq<(Seq<char>, RepoRule)>, name: Seq<char>) -> Option<RepoRule>
    decreases rules.len(),
{
    if rules.len() == 0 {
        None
    } else if rules[0].0 == name {
        Some(rules[0].1)
    } else {
        rule_for(rules.drop_first(), name)
    }
}

/// Exact, case-sensitive lookup of the repository name, then exact
/// comparison of the pushed ref with the rule's expected ref. An empty name
/// or ref (a field missing from the payload) never matches.
pub open spec fn route_model(ev: EventModel, rules: Seq<(Seq<char>, RepoRule)>) -> RouteOutcome {
    if ev.repository.len() == 0 {
        RouteOutcome::NoSuchRepo
    } else {
        match rule_for(rules, ev.repository) {
            None => RouteOutcome::NoSuchRepo,
            Some(rule) => if ev.git_ref.len() > 0 && ev.git_ref == rule.branch {
                RouteOutcome::Trigger(rule)
            } else {
                RouteOutcome::BranchMismatch
            },
        }
    }
}

/// Decides what an event means under the repository table.
pub fn route(event: &WebhookEvent, repos: &Vec<(String, RepoConfig)>) -> (r: Decision)
    ensures
        r@ == route_model(event@, rules_view(repos@)),
{
    let ghost rules = rules_view(repos@);
    if event.repository_full_name.as_str().is_empty() {
        return Decision::NoSuchRepo;
    }
    let mut i: usize = 0;
    assert(rules.subrange(0, rules.len() as int) =~= rules);
    while i < repos.len()
        invariant
            0 <= i <= repos@.len(),
            rules == rules_view(repos@),
            event@.repository.len() > 0,
            rule_for(rules, event@.repository) == rule_for(
                rules.subrange(i as int, rules.len() as int),
                event@.repository,
            ),
        decreases repos@.len() - i,
    {
        let ghost rest = rules.subrange(i as int, rules.len() as int);
        assert(rest.drop_first() =~= rules.subrange(i + 1, rules.len() as int));
        assert(rest[0] == (repos@[i as int].0@, repos@[i as int].1@));
        let entry = &repos[i];
        if text_eq(entry.0.as_str(), event.repository_full_name.as_str()) {
            if !event.git_ref.as_str().is_empty() && text_eq(
                event.git_ref.as_str(),
                entry.1.branch.as_str(),
            ) {
                return Decision::Trigger(entry.1.snapshot());
            } else {
                return Decision::BranchMismatch;
            }
        }
        i = i + 1;
    }
    Decision::NoSuchRepo
}

/// In a table that names each repository once, looking up an entry's name
/// finds that entry's rule, wherever it stands.
pub proof fn unique_table_lookup(rules: Seq<(Seq<char>, RepoRule)>, i: int)
    requires
        keys_unique(rules),
        0 <= i < rules.len(),
    ensures
        rule_for(rules, rules[i].0) == Some(rules[i].1),
    decreases rules.len(),
{
    if i > 0 {
        let rest = rules.drop_first();
        assert(rules[0].0 != rules[i].0);
        assert(rest[i - 1] == rules[i]);
        assert(keys_unique(rest)) by {
            assert forall|a: int, b: int|
                0 <= a < rest.len() && 0 <= b < rest.len() && a != b implies #[trigger] rest[a].0
                != #[trigger] rest[b].0 by {
                assert(rest[a] == rules[a + 1]);
                assert(rest[b] == rules[b + 1]);
            }
        }
        unique_table_lookup(rest, i - 1);
    }
}

/// Routing is a function of the event and the table alone: equal inputs
/// always give equal decisions.
pub proof fn route_deterministic(
    e1: EventModel,
    e2: EventModel,
    r1: Seq<(Seq<char>, RepoRule)>,
    r2: Seq<(Seq<char>, RepoRule)>,
)
    requires
        e1 == e2,
        r1 == r2,
    ensures
        route_model(e1, r1) == route_model(e2, r2),
{
}

} // verus!
