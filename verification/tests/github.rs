use ofborg::github::{
    gist_with_content, label_changes, prefix_after_page, CommitState, CommitStatus,
    InstallIdCache, PrefixStep,
};

fn strings(v: &[&str]) -> Vec<String> {
    v.iter().map(|s| s.to_string()).collect()
}

#[test]
fn test_update_issue_labels() {
    let existing = strings(&["bar", "baz", "keep", "ignore"]);
    let changes = label_changes(
        &existing,
        &[String::from("foo"), String::from("keep")],
        &[String::from("bar"), String::from("missing")],
    );
    assert_eq!(changes.to_add, strings(&["foo"]));
    assert_eq!(changes.to_remove, strings(&["bar"]));
}

#[test]
fn test_create_gist_with_content() {
    let gist = gist_with_content("example.txt", String::from("Hello World!"));
    assert_eq!(gist.public, Some(true));
    assert_eq!(gist.description, None);
    assert_eq!(gist.files.len(), 1);
    assert_eq!(gist.files[0].0, "example.txt");
    assert_eq!(gist.files[0].1.filename.as_deref(), Some("example.txt"));
    assert_eq!(gist.files[0].1.content, "Hello World!");
}

#[test]
fn long_descriptions_are_cut_to_140_characters() {
    let status = CommitStatus::new(
        "abc".to_owned(),
        "ctx".to_owned(),
        "x".repeat(150),
        None,
    );
    let req = status.set(CommitState::Pending).unwrap();
    assert_eq!(req.description.chars().count(), 140);
    assert_eq!(req.target_url, "");
    assert_eq!(req.state, CommitState::Pending);
}

#[test]
fn multibyte_descriptions_are_cut_by_characters() {
    // 50 characters of two bytes each: 100 bytes, kept whole
    let short = "é".repeat(50);
    let mut status = CommitStatus::new("abc".to_owned(), "ctx".to_owned(), short.clone(), None);
    assert_eq!(status.set(CommitState::Success).unwrap().description, short);
    // 80 characters of two bytes each: 160 bytes, cut to 140 characters,
    // so all 80 stay
    let longer = "é".repeat(80);
    let req = status
        .set_with_description(&longer, CommitState::Failure)
        .unwrap();
    assert_eq!(req.description, longer);
}

#[test]
fn disabled_status_sends_nothing() {
    let mut status = CommitStatus::new(
        "abc".to_owned(),
        "ctx".to_owned(),
        "d".to_owned(),
        Some("https://x".to_owned()),
    );
    assert_eq!(status.set(CommitState::Error).unwrap().target_url, "https://x");
    status.set_enable_publish(false);
    assert!(status.set(CommitState::Error).is_none());
    status.set_url(None);
    assert_eq!(status.url, "");
}

#[test]
fn status_prefix_by_page() {
    let legacy = vec![None, Some("grahamcofborg-eval".to_owned())];
    assert_eq!(
        prefix_after_page(&legacy, true),
        PrefixStep::Found("grahamcofborg".to_owned())
    );
    let modern = vec![Some("ofborg-eval".to_owned())];
    assert_eq!(prefix_after_page(&modern, true), PrefixStep::NextPage);
    assert_eq!(
        prefix_after_page(&modern, false),
        PrefixStep::Found("ofborg".to_owned())
    );
}

#[test]
fn install_ids_are_cached_per_repository() {
    let mut cache = InstallIdCache::new();
    assert_eq!(cache.get("NixOS", "nixpkgs"), None);
    cache.insert("NixOS", "nixpkgs", 42);
    cache.insert("NixOS", "other", 7);
    assert_eq!(cache.get("NixOS", "nixpkgs"), Some(42));
    assert_eq!(cache.get("nixos", "nixpkgs"), None);
    cache.insert("NixOS", "nixpkgs", 43);
    assert_eq!(cache.get("NixOS", "nixpkgs"), Some(43));
}
