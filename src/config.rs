//! In-memory configuration: the process-wide settings and the table of
//! repository rules, keyed by repository full name.

use vstd::prelude::*;

verus! {

/// Certificate and key locations for serving over TLS.
pub struct TlsConfig {
    pub cert_path: String,
    pub key_path: String,
}

/// What a repository rule says, as mathematical text.
pub ghost struct RepoRule {
    pub path: Seq<char>,
    pub branch: Seq<char>,
    pub deploy_command: Option<Seq<char>>,
}

/// Where a repository is checked out, which ref triggers it, and what to run afterwards.
pub struct RepoConfig {
    pub path: String,
    pub branch: String,
    pub deploy_command: Option<String>,
}

pub open spec fn opt_text(o: Option<String>) -> Option<Seq<char>> {
    match o {
        Some(s) => Some(s@),
        None => None,
    }
}

impl View for RepoConfig {
    type V = RepoRule;

    open spec fn view(&self) -> RepoRule {
        RepoRule {
            path: self.path@,
            branch: self.branch@,
            deploy_command: opt_text(self.deploy_command),
        }
    }
}

impl RepoConfig {
    /// An independent copy of the rule, so a running job never shares it.
    pub fn snapshot(&self) -> (r: RepoConfig)
        ensures
            r@ == self@,
    {
        let deploy_command = match &self.deploy_command {
            Some(c) => Some(c.clone()),
            None => None,
        };
        RepoConfig { path: self.path.clone(), branch: self.branch.clone(), deploy_command }
    }
}

/// The process-wide settings and the repository table.
pub struct AppConfig {
    pub host: String,
    pub port: u16,
    pub secret: String,
    pub tls: Option<TlsConfig>,
    pub git_token: Option<String>,
    /// The repository table: entries are matched by exact name, and the
    /// first entry with a given name is the one that counts.
    pub repos: Vec<(String, RepoConfig)>,
}

/// A repository table names each repository at most once.
pub open spec fn keys_unique(rules: Seq<(Seq<char>, RepoRule)>) -> bool {
    forall|i: int, j: int|
        0 <= i < rules.len() && 0 <= j < rules.len() && i != j ==> #[trigger] rules[i].0
            != #[trigger] rules[j].0
}

impl AppConfig {
    /// The repository table is a mapping: no name occurs twice.
    pub open spec fn well_formed(&self) -> bool {
        keys_unique(rules_view(self.repos@))
    }
}

/// The repository table as a sequence of (name, rule) entries.
pub open spec fn rules_view(repos: Seq<(String, RepoConfig)>) -> Seq<(Seq<char>, RepoRule)> {
    repos.map_values(|e: (String, RepoConfig)| (e.0@, e.1@))
}

} // verus!
