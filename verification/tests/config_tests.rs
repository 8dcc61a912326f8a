use branchfy::config::Config;

fn config_of(pairs: &[(&str, &str)]) -> Config {
    let mut c = Config::new();
    for (k, v) in pairs {
        c.insert(k.to_string(), v.to_string());
    }
    c
}

#[test]
fn empty_config_matches_nothing() {
    let c = Config::new();
    assert_eq!(c.len(), 0);
    assert_eq!(c.get_playlist_for_branch("feat/login"), None);
}

#[test]
fn default_mapping_feat_branch() {
    let c = Config::with_defaults("FEATLIST".to_string(), "FIXLIST".to_string());
    assert_eq!(c.get_playlist_for_branch("feat/login").map(|s| s.as_str()), Some("FEATLIST"));
}

#[test]
fn default_mapping_fix_branch() {
    let c = Config::with_defaults("FEATLIST".to_string(), "FIXLIST".to_string());
    assert_eq!(c.get_playlist_for_branch("fix/crash").map(|s| s.as_str()), Some("FIXLIST"));
}

#[test]
fn default_mapping_other_branch() {
    let c = Config::with_defaults("FEATLIST".to_string(), "FIXLIST".to_string());
    assert_eq!(c.get_playlist_for_branch("main"), None);
    assert_eq!(c.get_playlist_for_branch("fe"), None);
    assert_eq!(c.get_playlist_for_branch(""), None);
}

#[test]
fn default_entries_in_order() {
    let c = Config::with_defaults("A".to_string(), "B".to_string());
    let entries: Vec<(String, String)> = c.playlists().clone();
    assert_eq!(
        entries,
        vec![("feat".to_string(), "A".to_string()), ("fix".to_string(), "B".to_string())]
    );
}

#[test]
fn prefix_matches_without_slash() {
    // the prefix is matched as text: "feature-x" begins with "feat"
    let c = Config::with_defaults("A".to_string(), "B".to_string());
    assert_eq!(c.get_playlist_for_branch("feature-x").map(|s| s.as_str()), Some("A"));
}

#[test]
fn insert_replaces_playlist_of_prefix() {
    let mut c = config_of(&[("feat", "A"), ("fix", "B")]);
    c.insert("feat".to_string(), "C".to_string());
    assert_eq!(c.len(), 2);
    assert_eq!(c.get_playlist_for_branch("feat/x").map(|s| s.as_str()), Some("C"));
    assert_eq!(c.playlists()[0].1, "C");
}

#[test]
fn first_entry_in_order_wins() {
    let c = config_of(&[("f", "SHORT"), ("feat", "LONG")]);
    assert_eq!(c.get_playlist_for_branch("feat/x").map(|s| s.as_str()), Some("SHORT"));
    let d = config_of(&[("feat", "LONG"), ("f", "SHORT")]);
    assert_eq!(d.get_playlist_for_branch("feat/x").map(|s| s.as_str()), Some("LONG"));
    assert_eq!(d.get_playlist_for_branch("fix").map(|s| s.as_str()), Some("SHORT"));
}

#[test]
fn empty_prefix_matches_every_branch() {
    let c = config_of(&[("", "ALL")]);
    assert_eq!(c.get_playlist_for_branch("anything").map(|s| s.as_str()), Some("ALL"));
    assert_eq!(c.get_playlist_for_branch("").map(|s| s.as_str()), Some("ALL"));
}

#[test]
fn prefix_longer_than_branch_does_not_match() {
    let c = config_of(&[("feature", "A")]);
    assert_eq!(c.get_playlist_for_branch("feat"), None);
}

#[test]
fn non_ascii_prefix_matches_by_character() {
    let c = config_of(&[("ção", "P")]);
    assert_eq!(c.get_playlist_for_branch("ção/x").map(|s| s.as_str()), Some("P"));
    assert_eq!(c.get_playlist_for_branch("cão/x"), None);
}

#[test]
fn clone_keeps_entries() {
    let c = config_of(&[("feat", "A"), ("fix", "B"), ("docs", "C")]);
    let d = c.clone();
    assert_eq!(d.playlists(), c.playlists());
    assert_eq!(d.get_playlist_for_branch("docs/readme").map(|s| s.as_str()), Some("C"));
}

#[test]
fn from_pairs_maps_each_prefix() {
    let pairs = vec![
        ("feat".to_string(), "A".to_string()),
        ("fix".to_string(), "B".to_string()),
        ("feat".to_string(), "C".to_string()),
    ];
    let c = Config::from_pairs(&pairs);
    assert_eq!(c.len(), 2);
    assert_eq!(c.get_playlist_for_branch("feat/x").map(|s| s.as_str()), Some("C"));
    assert_eq!(c.get_playlist_for_branch("fix/y").map(|s| s.as_str()), Some("B"));
}
