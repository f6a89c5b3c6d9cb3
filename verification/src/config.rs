//! Configuration values and the rules that derive them from raw settings.

use vstd::prelude::*;

use crate::text::{
    spec_lowercase, spec_split, spec_trim, split_char, str_eq, str_views, string_views,
    to_lowercase, trim,
};

verus! {

broadcast use vstd::string::group_string_axioms;

/// Settings of the Linear source.
#[derive(Debug)]
pub struct LinearConfig {
    pub webhook_secret: String,
    pub api_key: Option<String>,
}

/// Settings of the Lark sink.
#[derive(Debug)]
pub struct LarkConfig {
    pub webhook_url: String,
    pub target_chat_id: Option<String>,
    pub app_id: Option<String>,
    pub app_secret: Option<String>,
    pub verification_token: Option<String>,
}

impl LarkConfig {
    /// The bot credentials `(app_id, app_secret)`, when both are set.
    pub fn bot_credentials(&self) -> (r: Option<(String, String)>)
        ensures
            r matches Some((id, secret)) ==> self.app_id matches Some(i) && self.app_secret matches Some(s)
                && id@ == i@ && secret@ == s@,
            r is None <==> (self.app_id is None || self.app_secret is None),
    {
        match (&self.app_id, &self.app_secret) {
            (Some(id), Some(secret)) => Some((id.clone(), secret.clone())),
            _ => None,
        }
    }
}

// ---------------------------------------------------------------------------
// GitHub
// ---------------------------------------------------------------------------

/// Map from GitHub logins to Lark user ids; a later entry for the same login
/// replaces an earlier one.
#[derive(Debug)]
pub struct UserMap {
    entries: Vec<(String, String)>,
}

/// The map that a list of entries stands for: later entries win.
pub open spec fn entries_map(entries: Seq<(String, String)>) -> Map<Seq<char>, Seq<char>>
    decreases entries.len(),
{
    if entries.len() == 0 {
        Map::empty()
    } else {
        entries_map(entries.drop_last()).insert(entries.last().0@, entries.last().1@)
    }
}

proof fn lemma_entries_map_last(entries: Seq<(String, String)>, key: Seq<char>, j: int)
    requires
        0 <= j < entries.len(),
        entries[j].0@ == key,
        forall|t: int| j < t < entries.len() ==> entries[t].0@ != key,
    ensures
        entries_map(entries).contains_key(key),
        entries_map(entries)[key] == entries[j].1@,
    decreases entries.len(),
{
    if j < entries.len() - 1 {
        lemma_entries_map_last(entries.drop_last(), key, j);
    }
}

proof fn lemma_entries_map_absent(entries: Seq<(String, String)>, key: Seq<char>)
    requires
        forall|t: int| 0 <= t < entries.len() ==> entries[t].0@ != key,
    ensures
        !entries_map(entries).contains_key(key),
    decreases entries.len(),
{
    if entries.len() > 0 {
        lemma_entries_map_absent(entries.drop_last(), key);
    }
}

impl View for UserMap {
    type V = Map<Seq<char>, Seq<char>>;

    closed spec fn view(&self) -> Map<Seq<char>, Seq<char>> {
        entries_map(self.entries@)
    }
}

impl UserMap {
    /// An empty map.
    pub fn new() -> (m: UserMap)
        ensures
            m@ == Map::<Seq<char>, Seq<char>>::empty(),
    {
        let m = UserMap { entries: Vec::new() };
        proof {
            assert(m.entries@.len() == 0);
        }
        m
    }

    /// Maps `login` to `lark_id`.
    pub fn insert(&mut self, login: String, lark_id: String)
        ensures
            final(self)@ == old(self)@.insert(login@, lark_id@),
    {
        let ghost l = login@;
        let ghost v = lark_id@;
        self.entries.push((login, lark_id));
        proof {
            assert(self.entries@.drop_last() =~= old(self).entries@);
        }
    }

    /// The Lark id of `login`.
    pub fn get(&self, login: &str) -> (r: Option<&String>)
        ensures
            r matches Some(v) ==> self@.contains_key(login@) && self@[login@] == v@,
            r is None ==> !self@.contains_key(login@),
    {
        let mut j = self.entries.len();
        while j > 0
            invariant
                j <= self.entries@.len(),
                forall|t: int| j <= t < self.entries@.len() ==> self.entries@[t].0@ != login@,
            decreases j,
        {
            let e = &self.entries[j - 1];
            if str_eq(e.0.as_str(), login) {
                proof {
                    lemma_entries_map_last(self.entries@, login@, j - 1);
                }
                return Some(&e.1);
            }
            j = j - 1;
        }
        proof {
            lemma_entries_map_absent(self.entries@, login@);
        }
        None
    }
}

/// Settings of the GitHub source.
#[derive(Debug)]
pub struct GitHubConfig {
    pub webhook_secret: String,
    pub user_map: UserMap,
    pub alert_labels: Vec<String>,
    pub repo_whitelist: Vec<String>,
    pub pat: Option<String>,
}

/// The labels that raise an alert when none are configured.
pub open spec fn spec_default_alert_labels() -> Seq<Seq<char>> {
    seq!["bug"@, "urgent"@, "p0"@]
}

/// `["bug", "urgent", "p0"]`
fn default_alert_labels() -> (v: Vec<String>)
    ensures
        string_views(v@) == spec_default_alert_labels(),
{
    let mut v: Vec<String> = Vec::new();
    v.push(String::from_str("bug"));
    v.push(String::from_str("urgent"));
    v.push(String::from_str("p0"));
    proof {
        assert(string_views(v@) =~= spec_default_alert_labels());
    }
    v
}

/// The alert labels of a comma-separated setting: each item trimmed and
/// lowercased; the default labels when the setting is absent.
pub open spec fn spec_alert_labels(raw: Option<Seq<char>>) -> Seq<Seq<char>> {
    match raw {
        Some(s) => spec_split(s, ',').map_values(|p: Seq<char>| spec_lowercase(spec_trim(p))),
        None => spec_default_alert_labels(),
    }
}

/// Parses the `GITHUB_ALERT_LABELS` setting.
pub fn parse_alert_labels(raw: Option<&str>) -> (v: Vec<String>)
    ensures
        string_views(v@) == spec_alert_labels(
            match raw {
                Some(s) => Some(s@),
                None => None,
            },
        ),
{
    match raw {
        None => default_alert_labels(),
        Some(s) => {
            let parts = split_char(s, ',');
            let ghost views = str_views(parts@);
            let mut out: Vec<String> = Vec::new();
            let mut i: usize = 0;
            while i < parts.len()
                invariant
                    views == str_views(parts@),
                    views == spec_split(s@, ','),
                    i <= parts@.len(),
                    string_views(out@) == views.take(i as int).map_values(
                        |p: Seq<char>| spec_lowercase(spec_trim(p)),
                    ),
                decreases parts@.len() - i,
            {
                let item = to_lowercase(trim(parts[i]));
                proof {
                    assert(views[i as int] == parts@[i as int]@);
                }
                let ghost old_out = string_views(out@);
                let ghost item_v = item@;
                out.push(item);
                proof {
                    assert(string_views(out@) =~= old_out.push(item_v));
                    assert(item_v == spec_lowercase(spec_trim(views[i as int])));
                    assert(views.take(i + 1).map_values(|p: Seq<char>| spec_lowercase(spec_trim(p)))
                        =~= views.take(i as int).map_values(
                        |p: Seq<char>| spec_lowercase(spec_trim(p)),
                    ).push(spec_lowercase(spec_trim(views[i as int]))));
                }
                i = i + 1;
            }
            proof {
                assert(views.take(parts@.len() as int) =~= views);
            }
            out
        },
    }
}

/// The trimmed items of `parts`, leaving out those that are empty.
pub open spec fn nonempty_trimmed(parts: Seq<Seq<char>>) -> Seq<Seq<char>>
    decreases parts.len(),
{
    if parts.len() == 0 {
        Seq::empty()
    } else {
        let rest = nonempty_trimmed(parts.drop_last());
        let t = spec_trim(parts.last());
        if t.len() > 0 {
            rest.push(t)
        } else {
            rest
        }
    }
}

/// The repository whitelist of a comma-separated setting: the trimmed,
/// non-empty items; empty when the setting is absent.
pub open spec fn spec_repo_whitelist(raw: Option<Seq<char>>) -> Seq<Seq<char>> {
    match raw {
        Some(s) => nonempty_trimmed(spec_split(s, ',')),
        None => Seq::empty(),
    }
}

/// Parses the `GITHUB_REPO_WHITELIST` setting.
pub fn parse_repo_whitelist(raw: Option<&str>) -> (v: Vec<String>)
    ensures
        string_views(v@) == spec_repo_whitelist(
            match raw {
                Some(s) => Some(s@),
                None => None,
            },
        ),
{
    let mut out: Vec<String> = Vec::new();
    match raw {
        None => {
            proof {
                assert(string_views(out@) =~= Seq::<Seq<char>>::empty());
            }
            out
        },
        Some(s) => {
            let parts = split_char(s, ',');
            let ghost views = str_views(parts@);
            let mut i: usize = 0;
            proof {
                assert(string_views(out@) =~= Seq::<Seq<char>>::empty());
                assert(views.take(0) =~= Seq::<Seq<char>>::empty());
            }
            while i < parts.len()
                invariant
                    views == str_views(parts@),
                    views == spec_split(s@, ','),
                    i <= parts@.len(),
                    string_views(out@) == nonempty_trimmed(views.take(i as int)),
                decreases parts@.len() - i,
            {
                let t = trim(parts[i]);
                proof {
                    assert(views[i as int] == parts@[i as int]@);
                    assert(views.take(i + 1).drop_last() =~= views.take(i as int));
                }
                if t.unicode_len() > 0 {
                    out.push(String::from_str(t));
                    proof {
                        assert(string_views(out@) =~= nonempty_trimmed(views.take(i as int)).push(
                            t@,
                        ));
                    }
                }
                i = i + 1;
            }
            proof {
                assert(views.take(parts@.len() as int) =~= views);
            }
            out
        },
    }
}

impl GitHubConfig {
    /// The GitHub settings from the raw values of `GITHUB_WEBHOOK_SECRET`,
    /// `GITHUB_ALERT_LABELS`, `GITHUB_REPO_WHITELIST` and `GITHUB_PAT` and the
    /// decoded `GITHUB_USER_MAP`; `None` (the source is off) without a secret.
    pub fn from_values(
        secret: Option<String>,
        user_map: UserMap,
        alert_labels: Option<&str>,
        repo_whitelist: Option<&str>,
        pat: Option<String>,
    ) -> (r: Option<GitHubConfig>)
        ensures
            r is None <==> secret is None,
            r matches Some(c) ==> {
                &&& secret matches Some(s) && c.webhook_secret@ == s@
                &&& c.user_map@ == user_map@
                &&& string_views(c.alert_labels@) == spec_alert_labels(
                    match alert_labels {
                        Some(s) => Some(s@),
                        None => None,
                    },
                )
                &&& string_views(c.repo_whitelist@) == spec_repo_whitelist(
                    match repo_whitelist {
                        Some(s) => Some(s@),
                        None => None,
                    },
                )
                &&& c.pat == pat
            },
    {
        let secret = match secret {
            Some(s) => s,
            None => return None,
        };
        Some(
            GitHubConfig {
                webhook_secret: secret,
                user_map,
                alert_labels: parse_alert_labels(alert_labels),
                repo_whitelist: parse_repo_whitelist(repo_whitelist),
                pat,
            },
        )
    }
}

// ---------------------------------------------------------------------------
// Server
// ---------------------------------------------------------------------------

/// Listen port when none is configured.
pub fn default_port() -> (p: u16)
    ensures
        p == 3000,
{
    3000
}

/// Debounce window in milliseconds when none is configured.
pub fn default_debounce() -> (d: u64)
    ensures
        d == 30000,
{
    30000
}

/// Settings of the HTTP server.
#[derive(Debug)]
pub struct ServerConfig {
    pub port: u16,
    pub debounce_delay_ms: u64,
}

impl Default for ServerConfig {
    fn default() -> (c: Self)
        ensures
            c.port == 3000,
            c.debounce_delay_ms == 30000,
    {
        ServerConfig { port: default_port(), debounce_delay_ms: default_debounce() }
    }
}

} // verus!
