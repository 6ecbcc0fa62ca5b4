use my_atmosphere::nsid::extract_nsid_prefix;
use my_atmosphere::repo::{app_meta, group_collections};

fn strings(items: &[&str]) -> Vec<String> {
    items.iter().map(|s| s.to_string()).collect()
}

#[test]
fn prefix_of_long_nsid_keeps_two_segments() {
    assert_eq!(extract_nsid_prefix("app.bsky.feed.post"), "app.bsky");
}

#[test]
fn prefix_of_two_segment_nsid_is_itself() {
    assert_eq!(extract_nsid_prefix("app.bsky"), "app.bsky");
}

#[test]
fn prefix_of_single_segment_is_itself() {
    assert_eq!(extract_nsid_prefix("standalone"), "standalone");
    assert_eq!(extract_nsid_prefix(""), "");
}

#[test]
fn prefix_with_empty_segments_follows_split() {
    assert_eq!(extract_nsid_prefix(".a.b"), ".a");
    assert_eq!(extract_nsid_prefix("a..b"), "a.");
    assert_eq!(extract_nsid_prefix("a."), "a.");
}

#[test]
fn prefix_handles_non_ascii() {
    assert_eq!(extract_nsid_prefix("é.ü.x.y"), "é.ü");
}

#[test]
fn prefix_is_stable_when_segments_are_appended() {
    for nsid in ["app.bsky", "app.bsky.feed", "a.", ".x"] {
        let longer = format!("{nsid}.post");
        assert_eq!(extract_nsid_prefix(&longer), extract_nsid_prefix(nsid));
    }
    assert_ne!(extract_nsid_prefix("app.post"), extract_nsid_prefix("app"));
}

#[test]
fn prefix_is_idempotent() {
    for nsid in ["app.bsky.feed.post", "a", "x.y", "a..b.c", ".q.r"] {
        let p = extract_nsid_prefix(nsid);
        assert_eq!(extract_nsid_prefix(&p), p);
        assert!(nsid.starts_with(&p));
    }
}

#[test]
fn registry_knows_bluesky_and_not_others() {
    let m = app_meta("app.bsky").expect("known");
    assert_eq!(m.name, "Bluesky");
    assert_eq!(m.description, "Social networking on the AT Protocol");
    assert_eq!(m.icon, "🦋");
    assert_eq!(m.color, "#1185fe");
    let m = app_meta("com.imlunahey").expect("known");
    assert_eq!(m.name, "LunaHey");
    assert_eq!(m.color, "#a855f7");
    assert!(app_meta("app.bsky.feed").is_none());
    assert!(app_meta("xyz.unknown").is_none());
}

#[test]
fn grouping_collects_by_prefix_in_first_appearance_order() {
    let cols = strings(&[
        "app.bsky.feed.post",
        "app.bsky.actor.profile",
        "sh.tangled.repo",
        "xyz.custom.thing",
        "app.bsky.graph.follow",
    ]);
    let apps = group_collections(&cols);
    assert_eq!(apps.len(), 3);

    assert_eq!(apps[0].nsid_prefix, "app.bsky");
    assert_eq!(apps[0].display_name, "Bluesky");
    assert_eq!(apps[0].record_count, 3);
    assert_eq!(
        apps[0].collections,
        strings(&["app.bsky.feed.post", "app.bsky.actor.profile", "app.bsky.graph.follow"])
    );

    assert_eq!(apps[1].nsid_prefix, "sh.tangled");
    assert_eq!(apps[1].display_name, "Tangled");
    assert_eq!(apps[1].description, "Git collaboration on AT Protocol");
    assert_eq!(apps[1].icon, "🔀");
    assert_eq!(apps[1].record_count, 1);

    assert_eq!(apps[2].nsid_prefix, "xyz.custom");
    assert_eq!(apps[2].display_name, "xyz.custom");
    assert_eq!(apps[2].description, "Unknown application");
    assert_eq!(apps[2].icon, "📦");
    assert_eq!(apps[2].color, "#6b7280");
    assert_eq!(apps[2].collections, strings(&["xyz.custom.thing"]));
}

#[test]
fn grouping_counts_add_up_to_collections() {
    let cols = strings(&["a.b.c", "a.b.d", "c.d", "c.d.e", "z", "a.b"]);
    let apps = group_collections(&cols);
    let total: usize = apps.iter().map(|a| a.record_count).sum();
    assert_eq!(total, cols.len());
    let prefixes: Vec<&str> = apps.iter().map(|a| a.nsid_prefix.as_str()).collect();
    assert_eq!(prefixes, vec!["a.b", "c.d", "z"]);
    for app in &apps {
        assert_eq!(app.record_count, app.collections.len());
        for c in &app.collections {
            assert_eq!(extract_nsid_prefix(c), app.nsid_prefix);
        }
    }
}

#[test]
fn grouping_of_empty_repository_is_empty() {
    assert!(group_collections(&Vec::new()).is_empty());
}
