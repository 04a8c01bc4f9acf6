//! The branch resolver: turning a label query's reply into an ordered
//! sequence of branch names.
//!
//! The run sends one GraphQL query asking for the open pull requests of a
//! repository that carry a label, and reads from the reply the head branch
//! name of every returned pull request. The query itself travels over the
//! network outside this crate; what is verified here is the query document,
//! the shape of the reply as the resolver reads it, and the extraction of
//! the branch sequence from it.

use vstd::prelude::*;

verus! {

/// The query that asks for the open pull requests of a repository carrying
/// a given label, exposing each one's head branch name.
pub struct LabelBranches;

/// The query document: open pull requests of `$owner/$name` carrying
/// `$label`, each exposing its head branch name.
pub open spec fn query_document() -> Seq<char> {
    "query LabelBranches($owner: String!, $name: String!, $label: String!) {\n  repository(owner: $owner, name: $name) {\n    pullRequests(labels: [$label], states: OPEN, first: 100) {\n      nodes {\n        headRefName\n      }\n    }\n  }\n}\n"@
}

impl LabelBranches {
    /// The query document sent to the remote API; its variables are the
    /// repository owner, the repository name and the label.
    pub fn query_text() -> (q: &'static str)
        ensures
            q@ == query_document(),
    {
        "query LabelBranches($owner: String!, $name: String!, $label: String!) {\n  repository(owner: $owner, name: $name) {\n    pullRequests(labels: [$label], states: OPEN, first: 100) {\n      nodes {\n        headRefName\n      }\n    }\n  }\n}\n"
    }
}

/// The repository the query addresses, as owner and name. Derived once from
/// the remote's URL before a run begins, immutable, and read only to fill
/// the query's variables.
pub struct RepositoryIdentity {
    pub owner: String,
    pub name: String,
}

/// Whether a character separates segments of a remote URL: `/` in the
/// https form, and `:` before the path in the ssh form.
pub open spec fn is_separator(c: char) -> bool {
    c == '/' || c == ':'
}

/// A URL with one trailing `.git` removed.
pub open spec fn without_git_suffix(s: Seq<char>) -> Seq<char> {
    if s.len() >= 4 && s[s.len() - 4] == '.' && s[s.len() - 3] == 'g' && s[s.len() - 2] == 'i'
        && s[s.len() - 1] == 't' {
        s.take(s.len() - 4)
    } else {
        s
    }
}

/// The index of the last separator in `s`, or -1 when there is none.
pub open spec fn last_sep(s: Seq<char>) -> int
    decreases s.len(),
{
    if s.len() == 0 {
        -1
    } else if is_separator(s.last()) {
        s.len() - 1
    } else {
        last_sep(s.drop_last())
    }
}

/// The owner and name a remote URL carries: the last two segments of the
/// URL after one trailing `.git` is removed. Absent when the URL has no
/// separator at all or either segment is empty.
pub open spec fn spec_identity_of(url: Seq<char>) -> Option<(Seq<char>, Seq<char>)> {
    let trimmed = without_git_suffix(url);
    if last_sep(trimmed) < 0 {
        None
    } else {
        let name_start = last_sep(trimmed) + 1;
        let head = trimmed.subrange(0, name_start - 1);
        let name = trimmed.subrange(name_start, trimmed.len() as int);
        let owner_start = last_sep(head) + 1;
        let owner = head.subrange(owner_start, head.len() as int);
        if name.len() == 0 || owner.len() == 0 {
            None
        } else {
            Some((owner, name))
        }
    }
}

/// The index of the last URL segment separator of `s`, if any.
fn last_separator(s: &str) -> (r: Option<usize>)
    ensures
        match r {
            Some(i) => i < s@.len() && last_sep(s@) == i as int,
            None => last_sep(s@) == -1,
        },
{
    let n = s.unicode_len();
    let mut i: usize = n;
    proof {
        assert(s@.take(n as int) =~= s@);
    }
    while i > 0
        invariant
            i <= n,
            n == s@.len(),
            last_sep(s@) == last_sep(s@.take(i as int)),
        decreases i,
    {
        let c = s.get_char(i - 1);
        if c == '/' || c == ':' {
            proof {
                assert(s@.take(i as int).last() == s@[i - 1]);
            }
            return Some(i - 1);
        }
        proof {
            assert(s@.take(i as int).drop_last() =~= s@.take(i - 1));
        }
        i = i - 1;
    }
    proof {
        assert(s@.take(0) =~= Seq::<char>::empty());
    }
    None
}

/// Derive the repository identity from the remote's URL: the last two
/// segments — in the ssh form (`git@host:owner/name.git`) as in the https
/// form (`https://host/owner/name.git`) — with a trailing `.git` removed.
/// `None` when the URL carries no such pair.
pub fn identity_from_url(url: &str) -> (r: Option<RepositoryIdentity>)
    ensures
        match r {
            Some(identity) => spec_identity_of(url@) == Some((identity.owner@, identity.name@)),
            None => spec_identity_of(url@) is None,
        },
{
    let n = url.unicode_len();
    let trimmed: &str = if n >= 4 && url.get_char(n - 4) == '.' && url.get_char(n - 3) == 'g'
        && url.get_char(n - 2) == 'i' && url.get_char(n - 1) == 't' {
        url.substring_char(0, n - 4)
    } else {
        url
    };
    proof {
        assert(trimmed@ =~= without_git_suffix(url@));
    }
    let tlen = trimmed.unicode_len();
    match last_separator(trimmed) {
        None => None,
        Some(sep) => {
            if sep + 1 == tlen {
                return None;
            }
            let head = trimmed.substring_char(0, sep);
            let owner_start = match last_separator(head) {
                Some(j) => j + 1,
                None => 0,
            };
            if owner_start == sep {
                return None;
            }
            let name = trimmed.substring_char(sep + 1, tlen).to_owned();
            let owner = head.substring_char(owner_start, sep).to_owned();
            proof {
                assert(head@.subrange(owner_start as int, head@.len() as int) =~= trimmed@
                    .subrange(0, sep as int).subrange(owner_start as int, sep as int));
            }
            Some(RepositoryIdentity { owner, name })
        },
    }
}

/// Why resolution failed. Any of these is fatal to the run: there is no
/// retry, and no merge is attempted after one.
#[derive(Clone, Copy, Debug, PartialEq, Eq, Structural)]
pub enum ResolutionError {
    /// The network call did not complete.
    Transport,
    /// The reply could not be decoded into the expected shape.
    Decode,
}

/// The reply to the query, reduced to the values the resolver reads.
/// `repository` is absent when the remote knows no such repository; that is
/// "no matching pull requests", not an error.
pub struct ResponseData {
    pub repository: Option<RepositoryPullRequests>,
}

/// The pull requests of the matching repository. `nodes` is absent when the
/// remote returns no list at all; an entry is `None` when a pull request
/// stands in the reply without a resolvable head branch name, and otherwise
/// carries that name.
pub struct RepositoryPullRequests {
    pub nodes: Option<Vec<Option<String>>>,
}

/// The pull-request entries a reply carries. An absent reply body, an
/// absent repository and an absent list all stand for "no matching pull
/// requests" and carry no entries.
pub open spec fn response_entries(data: Option<ResponseData>) -> Seq<Option<String>> {
    match data {
        Some(d) => match d.repository {
            Some(r) => match r.nodes {
                Some(ns) => ns@,
                None => Seq::empty(),
            },
            None => Seq::empty(),
        },
        None => Seq::empty(),
    }
}

/// The head branch names of a sequence of entries, in order: an entry
/// without a name contributes nothing, one with a name contributes it.
pub open spec fn collect_names(entries: Seq<Option<String>>) -> Seq<String>
    decreases entries.len(),
{
    if entries.len() == 0 {
        Seq::empty()
    } else {
        let rest = collect_names(entries.drop_last());
        match entries.last() {
            Some(name) => rest.push(name),
            None => rest,
        }
    }
}

/// Extract, in order, the head branch name of every pull request in the
/// reply. Entries without a resolvable head branch name are skipped, and a
/// reply with no matching repository or no matching pull requests yields
/// the empty sequence; both are successes, never errors.
pub fn extract_branches(data: Option<ResponseData>) -> (r: Vec<String>)
    ensures
        r@ == collect_names(response_entries(data)),
{
    let ghost goal = response_entries(data);
    let entries: Vec<Option<String>> = match data {
        Some(d) => match d.repository {
            Some(repo) => match repo.nodes {
                Some(ns) => ns,
                None => Vec::new(),
            },
            None => Vec::new(),
        },
        None => Vec::new(),
    };
    assert(entries@ == goal);
    let mut out: Vec<String> = Vec::new();
    let mut i: usize = 0;
    while i < entries.len()
        invariant
            i <= entries.len(),
            entries@ == goal,
            out@ == collect_names(goal.take(i as int)),
        decreases entries.len() - i,
    {
        match &entries[i] {
            Some(name) => {
                out.push(name.clone());
            },
            None => {},
        }
        proof {
            assert(goal.take(i + 1).drop_last() =~= goal.take(i as int));
            assert(goal.take(i + 1).last() == goal[i as int]);
        }
        i = i + 1;
    }
    proof {
        assert(goal.take(entries@.len() as int) =~= goal);
    }
    out
}

/// A pull-request entry without a head branch name is excluded without
/// error: appending such an entry leaves the resolved sequence unchanged.
pub proof fn lemma_nameless_entry_excluded(entries: Seq<Option<String>>)
    ensures
        collect_names(entries.push(None)) == collect_names(entries),
{
    assert(entries.push(None).drop_last() =~= entries);
}

/// An entry that carries a head branch name appends exactly that name,
/// after every earlier name: extraction keeps the reply's order.
pub proof fn lemma_named_entry_appended(entries: Seq<Option<String>>, name: String)
    ensures
        collect_names(entries.push(Some(name))) == collect_names(entries).push(name),
{
    assert(entries.push(Some(name)).drop_last() =~= entries);
}

/// A label matching zero pull requests resolves to the empty sequence,
/// whichever way the reply encodes the absence.
pub proof fn lemma_no_matches_resolves_empty(data: Option<ResponseData>)
    requires
        response_entries(data).len() == 0,
    ensures
        collect_names(response_entries(data)) == Seq::<String>::empty(),
{
}

} // verus!
