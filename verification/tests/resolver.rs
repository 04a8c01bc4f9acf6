use label_branches::resolver::{
    extract_branches, identity_from_url, LabelBranches, RepositoryIdentity,
    RepositoryPullRequests, ResponseData,
};

fn reply_with(nodes: Option<Vec<Option<String>>>) -> Option<ResponseData> {
    Some(ResponseData { repository: Some(RepositoryPullRequests { nodes }) })
}

#[test]
fn absent_reply_body_resolves_empty() {
    let branches = extract_branches(None);
    assert!(branches.is_empty());
}

#[test]
fn absent_repository_resolves_empty() {
    let branches = extract_branches(Some(ResponseData { repository: None }));
    assert!(branches.is_empty());
}

#[test]
fn absent_node_list_resolves_empty() {
    let branches = extract_branches(reply_with(None));
    assert!(branches.is_empty());
}

#[test]
fn empty_node_list_resolves_empty() {
    let branches = extract_branches(reply_with(Some(vec![])));
    assert!(branches.is_empty());
}

#[test]
fn nameless_entries_are_excluded_without_error() {
    let nodes = vec![
        Some("feature-a".to_string()),
        None,
        Some("feature-b".to_string()),
        None,
    ];
    let branches = extract_branches(reply_with(Some(nodes)));
    assert_eq!(branches, vec!["feature-a".to_string(), "feature-b".to_string()]);
}

#[test]
fn only_nameless_entries_resolve_empty() {
    let branches = extract_branches(reply_with(Some(vec![None, None])));
    assert!(branches.is_empty());
}

#[test]
fn reply_order_is_kept_without_sorting_or_deduplication() {
    let nodes = vec![
        Some("zeta".to_string()),
        Some("alpha".to_string()),
        Some("zeta".to_string()),
    ];
    let branches = extract_branches(reply_with(Some(nodes)));
    assert_eq!(
        branches,
        vec!["zeta".to_string(), "alpha".to_string(), "zeta".to_string()]
    );
}

#[test]
fn query_asks_for_open_labeled_pull_request_head_names() {
    let query = LabelBranches::query_text();
    assert!(query.contains("repository(owner: $owner, name: $name)"));
    assert!(query.contains("pullRequests(labels: [$label], states: OPEN"));
    assert!(query.contains("headRefName"));
}

#[test]
fn identity_from_ssh_url() {
    let identity = identity_from_url("git@github.com:octocat/hello-world.git")
        .expect("the ssh form carries owner and name");
    assert_eq!(identity.owner, "octocat");
    assert_eq!(identity.name, "hello-world");
}

#[test]
fn identity_from_https_url() {
    let identity = identity_from_url("https://github.com/octocat/hello-world.git")
        .expect("the https form carries owner and name");
    assert_eq!(identity.owner, "octocat");
    assert_eq!(identity.name, "hello-world");
}

#[test]
fn identity_without_git_suffix() {
    let identity = identity_from_url("https://github.com/octocat/hello-world")
        .expect("the suffix is optional");
    assert_eq!(identity.owner, "octocat");
    assert_eq!(identity.name, "hello-world");
}

#[test]
fn identity_needs_a_separator() {
    assert!(identity_from_url("nonsense").is_none());
}

#[test]
fn identity_needs_both_segments() {
    assert!(identity_from_url("https://github.com/octocat/").is_none());
    assert!(identity_from_url("/name").is_none());
}

#[test]
fn repository_identity_keeps_owner_and_name() {
    let identity = RepositoryIdentity {
        owner: "octocat".to_string(),
        name: "hello-world".to_string(),
    };
    assert_eq!(identity.owner, "octocat");
    assert_eq!(identity.name, "hello-world");
}
