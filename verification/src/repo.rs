//! Grouping a repository's collections into the applications that own them.

use vstd::prelude::*;

use crate::nsid::{extract_nsid_prefix, nsid_prefix};
use crate::text::str_eq;

verus! {

/// Display metadata of an application known to the dashboard.
pub struct AppMeta {
    pub name: &'static str,
    pub description: &'static str,
    pub icon: &'static str,
    pub color: &'static str,
}

/// The registry of known applications, by NSID prefix: name, description,
/// icon and color.
pub open spec fn app_registry(prefix: Seq<char>) -> Option<(Seq<char>, Seq<char>, Seq<char>, Seq<char>)> {
    if prefix == "app.bsky"@ {
        Some(("Bluesky"@, "Social networking on the AT Protocol"@, "🦋"@, "#1185fe"@))
    } else if prefix == "chat.bsky"@ {
        Some(("Bluesky Chat"@, "Direct messaging on Bluesky"@, "💬"@, "#1185fe"@))
    } else if prefix == "sh.tangled"@ {
        Some(("Tangled"@, "Git collaboration on AT Protocol"@, "🔀"@, "#6366f1"@))
    } else if prefix == "dev.keytrace"@ {
        Some(("Keytrace"@, "Cryptographic key verification"@, "🔑"@, "#f59e0b"@))
    } else if prefix == "fyi.atstore"@ {
        Some(("AT Store"@, "App directory and reviews"@, "🏪"@, "#10b981"@))
    } else if prefix == "pub.leaflet"@ {
        Some(("Leaflet"@, "Publishing on AT Protocol"@, "📰"@, "#8b5cf6"@))
    } else if prefix == "site.standard"@ {
        Some(("Standard Site"@, "Personal websites on AT Protocol"@, "🌐"@, "#ec4899"@))
    } else if prefix == "social.popfeed"@ {
        Some(("Popfeed"@, "Social feed and reviews"@, "🔥"@, "#ef4444"@))
    } else if prefix == "community.lexicon"@ {
        Some(("Lexicon Community"@, "Community events and calendars"@, "📅"@, "#14b8a6"@))
    } else if prefix == "com.imlunahey"@ {
        Some(("LunaHey"@, "Guestbooks and leaderboards"@, "📝"@, "#a855f7"@))
    } else {
        None
    }
}

/// The known applications, one row each: prefix, then name, description,
/// icon and color.
pub open spec fn registry_table() -> Seq<(Seq<char>, (Seq<char>, Seq<char>, Seq<char>, Seq<char>))> {
    seq![
        ("app.bsky"@, ("Bluesky"@, "Social networking on the AT Protocol"@, "🦋"@, "#1185fe"@)),
        ("chat.bsky"@, ("Bluesky Chat"@, "Direct messaging on Bluesky"@, "💬"@, "#1185fe"@)),
        ("sh.tangled"@, ("Tangled"@, "Git collaboration on AT Protocol"@, "🔀"@, "#6366f1"@)),
        ("dev.keytrace"@, ("Keytrace"@, "Cryptographic key verification"@, "🔑"@, "#f59e0b"@)),
        ("fyi.atstore"@, ("AT Store"@, "App directory and reviews"@, "🏪"@, "#10b981"@)),
        ("pub.leaflet"@, ("Leaflet"@, "Publishing on AT Protocol"@, "📰"@, "#8b5cf6"@)),
        ("site.standard"@, ("Standard Site"@, "Personal websites on AT Protocol"@, "🌐"@, "#ec4899"@)),
        ("social.popfeed"@, ("Popfeed"@, "Social feed and reviews"@, "🔥"@, "#ef4444"@)),
        ("community.lexicon"@, ("Lexicon Community"@, "Community events and calendars"@, "📅"@, "#14b8a6"@)),
        ("com.imlunahey"@, ("LunaHey"@, "Guestbooks and leaderboards"@, "📝"@, "#a855f7"@)),
    ]
}

/// The registry holds exactly the rows of the table: each listed prefix
/// gives its own row, and every other prefix gives nothing.
pub proof fn law_registry_follows_table(prefix: Seq<char>)
    ensures
        forall|i: int|
            0 <= i < registry_table().len() ==> app_registry(#[trigger] registry_table()[i].0) == Some(
                registry_table()[i].1,
            ),
        (forall|i: int| 0 <= i < registry_table().len() ==> #[trigger] registry_table()[i].0 != prefix)
            ==> app_registry(prefix) is None,
{
    reveal_strlit("app.bsky");
    assert(("app.bsky"@).len() == 8);
    assert(("app.bsky"@)[0] == 'a');
    reveal_strlit("Bluesky");
    assert(("Bluesky"@).len() == 7);
    assert(("Bluesky"@)[0] == 'B');
    reveal_strlit("Social networking on the AT Protocol");
    assert(("Social networking on the AT Protocol"@).len() == 36);
    reveal_strlit("🦋");
    assert(("🦋"@).len() == 1);
    assert(("🦋"@)[0] == '🦋');
    reveal_strlit("chat.bsky");
    assert(("chat.bsky"@).len() == 9);
    reveal_strlit("Bluesky Chat");
    assert(("Bluesky Chat"@).len() == 12);
    assert(("Bluesky Chat"@)[0] == 'B');
    reveal_strlit("Direct messaging on Bluesky");
    assert(("Direct messaging on Bluesky"@).len() == 27);
    assert(("Direct messaging on Bluesky"@)[0] == 'D');
    reveal_strlit("💬");
    assert(("💬"@).len() == 1);
    assert(("💬"@)[0] == '💬');
    reveal_strlit("sh.tangled");
    assert(("sh.tangled"@).len() == 10);
    reveal_strlit("Tangled");
    assert(("Tangled"@).len() == 7);
    assert(("Tangled"@)[0] == 'T');
    reveal_strlit("Git collaboration on AT Protocol");
    assert(("Git collaboration on AT Protocol"@).len() == 32);
    assert(("Git collaboration on AT Protocol"@)[0] == 'G');
    reveal_strlit("🔀");
    assert(("🔀"@).len() == 1);
    assert(("🔀"@)[0] == '🔀');
    reveal_strlit("dev.keytrace");
    assert(("dev.keytrace"@).len() == 12);
    assert(("dev.keytrace"@)[0] == 'd');
    reveal_strlit("Keytrace");
    assert(("Keytrace"@).len() == 8);
    assert(("Keytrace"@)[0] == 'K');
    reveal_strlit("Cryptographic key verification");
    assert(("Cryptographic key verification"@).len() == 30);
    assert(("Cryptographic key verification"@)[1] == 'r');
    reveal_strlit("🔑");
    assert(("🔑"@).len() == 1);
    assert(("🔑"@)[0] == '🔑');
    reveal_strlit("fyi.atstore");
    assert(("fyi.atstore"@).len() == 11);
    assert(("fyi.atstore"@)[0] == 'f');
    reveal_strlit("AT Store");
    assert(("AT Store"@).len() == 8);
    assert(("AT Store"@)[0] == 'A');
    reveal_strlit("App directory and reviews");
    assert(("App directory and reviews"@).len() == 25);
    assert(("App directory and reviews"@)[0] == 'A');
    reveal_strlit("🏪");
    assert(("🏪"@).len() == 1);
    assert(("🏪"@)[0] == '🏪');
    reveal_strlit("pub.leaflet");
    assert(("pub.leaflet"@).len() == 11);
    assert(("pub.leaflet"@)[0] == 'p');
    reveal_strlit("Leaflet");
    assert(("Leaflet"@).len() == 7);
    assert(("Leaflet"@)[0] == 'L');
    assert(("Leaflet"@)[1] == 'e');
    reveal_strlit("Publishing on AT Protocol");
    assert(("Publishing on AT Protocol"@).len() == 25);
    assert(("Publishing on AT Protocol"@)[0] == 'P');
    reveal_strlit("📰");
    assert(("📰"@).len() == 1);
    assert(("📰"@)[0] == '📰');
    reveal_strlit("site.standard");
    assert(("site.standard"@).len() == 13);
    assert(("site.standard"@)[0] == 's');
    reveal_strlit("Standard Site");
    assert(("Standard Site"@).len() == 13);
    assert(("Standard Site"@)[0] == 'S');
    reveal_strlit("Personal websites on AT Protocol");
    assert(("Personal websites on AT Protocol"@).len() == 32);
    assert(("Personal websites on AT Protocol"@)[0] == 'P');
    reveal_strlit("🌐");
    assert(("🌐"@).len() == 1);
    assert(("🌐"@)[0] == '🌐');
    reveal_strlit("social.popfeed");
    assert(("social.popfeed"@).len() == 14);
    reveal_strlit("Popfeed");
    assert(("Popfeed"@).len() == 7);
    assert(("Popfeed"@)[0] == 'P');
    reveal_strlit("Social feed and reviews");
    assert(("Social feed and reviews"@).len() == 23);
    reveal_strlit("🔥");
    assert(("🔥"@).len() == 1);
    assert(("🔥"@)[0] == '🔥');
    reveal_strlit("community.lexicon");
    assert(("community.lexicon"@).len() == 17);
    assert(("community.lexicon"@)[0] == 'c');
    reveal_strlit("Lexicon Community");
    assert(("Lexicon Community"@).len() == 17);
    assert(("Lexicon Community"@)[0] == 'L');
    reveal_strlit("Community events and calendars");
    assert(("Community events and calendars"@).len() == 30);
    assert(("Community events and calendars"@)[1] == 'o');
    reveal_strlit("📅");
    assert(("📅"@).len() == 1);
    assert(("📅"@)[0] == '📅');
    reveal_strlit("com.imlunahey");
    assert(("com.imlunahey"@).len() == 13);
    assert(("com.imlunahey"@)[0] == 'c');
    reveal_strlit("LunaHey");
    assert(("LunaHey"@).len() == 7);
    assert(("LunaHey"@)[0] == 'L');
    assert(("LunaHey"@)[1] == 'u');
    reveal_strlit("Guestbooks and leaderboards");
    assert(("Guestbooks and leaderboards"@).len() == 27);
    assert(("Guestbooks and leaderboards"@)[0] == 'G');
    reveal_strlit("📝");
    assert(("📝"@).len() == 1);
    assert(("📝"@)[0] == '📝');
    let t = registry_table();
    assert(t.len() == 10);
    assert forall|i: int| 0 <= i < t.len() implies app_registry(#[trigger] t[i].0) == Some(t[i].1) by {
            if i == 0 {
                assert(app_registry(t[0].0) == Some(t[0].1));
            } else if i == 1 {
                assert(app_registry(t[1].0) == Some(t[1].1));
            } else if i == 2 {
                assert(app_registry(t[2].0) == Some(t[2].1));
            } else if i == 3 {
                assert(app_registry(t[3].0) == Some(t[3].1));
            } else if i == 4 {
                assert(app_registry(t[4].0) == Some(t[4].1));
            } else if i == 5 {
                assert(app_registry(t[5].0) == Some(t[5].1));
            } else if i == 6 {
                assert(app_registry(t[6].0) == Some(t[6].1));
            } else if i == 7 {
                assert(app_registry(t[7].0) == Some(t[7].1));
            } else if i == 8 {
                assert(app_registry(t[8].0) == Some(t[8].1));
            } else if i == 9 {
                assert(app_registry(t[9].0) == Some(t[9].1));
            }
    }
    if forall|i: int| 0 <= i < t.len() ==> #[trigger] t[i].0 != prefix {
        assert(t[0].0 != prefix);
        assert(t[1].0 != prefix);
        assert(t[2].0 != prefix);
        assert(t[3].0 != prefix);
        assert(t[4].0 != prefix);
        assert(t[5].0 != prefix);
        assert(t[6].0 != prefix);
        assert(t[7].0 != prefix);
        assert(t[8].0 != prefix);
        assert(t[9].0 != prefix);
    }
}

/// Different known applications are told apart on their cards: two
/// distinct prefixes of the registry have different names, descriptions
/// and icons.
pub proof fn law_known_apps_are_distinct(p: Seq<char>, q: Seq<char>)
    requires
        p != q,
        app_registry(p) is Some,
        app_registry(q) is Some,
    ensures
        app_registry(p).unwrap().0 != app_registry(q).unwrap().0,
        app_registry(p).unwrap().1 != app_registry(q).unwrap().1,
        app_registry(p).unwrap().2 != app_registry(q).unwrap().2,
{
    reveal_strlit("app.bsky");
    assert(("app.bsky"@).len() == 8);
    assert(("app.bsky"@)[0] == 'a');
    reveal_strlit("Bluesky");
    assert(("Bluesky"@).len() == 7);
    assert(("Bluesky"@)[0] == 'B');
    reveal_strlit("Social networking on the AT Protocol");
    assert(("Social networking on the AT Protocol"@).len() == 36);
    reveal_strlit("🦋");
    assert(("🦋"@).len() == 1);
    assert(("🦋"@)[0] == '🦋');
    reveal_strlit("chat.bsky");
    assert(("chat.bsky"@).len() == 9);
    reveal_strlit("Bluesky Chat");
    assert(("Bluesky Chat"@).len() == 12);
    assert(("Bluesky Chat"@)[0] == 'B');
    reveal_strlit("Direct messaging on Bluesky");
    assert(("Direct messaging on Bluesky"@).len() == 27);
    assert(("Direct messaging on Bluesky"@)[0] == 'D');
    reveal_strlit("💬");
    assert(("💬"@).len() == 1);
    assert(("💬"@)[0] == '💬');
    reveal_strlit("sh.tangled");
    assert(("sh.tangled"@).len() == 10);
    reveal_strlit("Tangled");
    assert(("Tangled"@).len() == 7);
    assert(("Tangled"@)[0] == 'T');
    reveal_strlit("Git collaboration on AT Protocol");
    assert(("Git collaboration on AT Protocol"@).len() == 32);
    assert(("Git collaboration on AT Protocol"@)[0] == 'G');
    reveal_strlit("🔀");
    assert(("🔀"@).len() == 1);
    assert(("🔀"@)[0] == '🔀');
    reveal_strlit("dev.keytrace");
    assert(("dev.keytrace"@).len() == 12);
    assert(("dev.keytrace"@)[0] == 'd');
    reveal_strlit("Keytrace");
    assert(("Keytrace"@).len() == 8);
    assert(("Keytrace"@)[0] == 'K');
    reveal_strlit("Cryptographic key verification");
    assert(("Cryptographic key verification"@).len() == 30);
    assert(("Cryptographic key verification"@)[1] == 'r');
    reveal_strlit("🔑");
    assert(("🔑"@).len() == 1);
    assert(("🔑"@)[0] == '🔑');
    reveal_strlit("fyi.atstore");
    assert(("fyi.atstore"@).len() == 11);
    assert(("fyi.atstore"@)[0] == 'f');
    reveal_strlit("AT Store");
    assert(("AT Store"@).len() == 8);
    assert(("AT Store"@)[0] == 'A');
    reveal_strlit("App directory and reviews");
    assert(("App directory and reviews"@).len() == 25);
    assert(("App directory and reviews"@)[0] == 'A');
    reveal_strlit("🏪");
    assert(("🏪"@).len() == 1);
    assert(("🏪"@)[0] == '🏪');
    reveal_strlit("pub.leaflet");
    assert(("pub.leaflet"@).len() == 11);
    assert(("pub.leaflet"@)[0] == 'p');
    reveal_strlit("Leaflet");
    assert(("Leaflet"@).len() == 7);
    assert(("Leaflet"@)[0] == 'L');
    assert(("Leaflet"@)[1] == 'e');
    reveal_strlit("Publishing on AT Protocol");
    assert(("Publishing on AT Protocol"@).len() == 25);
    assert(("Publishing on AT Protocol"@)[0] == 'P');
    reveal_strlit("📰");
    assert(("📰"@).len() == 1);
    assert(("📰"@)[0] == '📰');
    reveal_strlit("site.standard");
    assert(("site.standard"@).len() == 13);
    assert(("site.standard"@)[0] == 's');
    reveal_strlit("Standard Site");
    assert(("Standard Site"@).len() == 13);
    assert(("Standard Site"@)[0] == 'S');
    reveal_strlit("Personal websites on AT Protocol");
    assert(("Personal websites on AT Protocol"@).len() == 32);
    assert(("Personal websites on AT Protocol"@)[0] == 'P');
    reveal_strlit("🌐");
    assert(("🌐"@).len() == 1);
    assert(("🌐"@)[0] == '🌐');
    reveal_strlit("social.popfeed");
    assert(("social.popfeed"@).len() == 14);
    reveal_strlit("Popfeed");
    assert(("Popfeed"@).len() == 7);
    assert(("Popfeed"@)[0] == 'P');
    reveal_strlit("Social feed and reviews");
    assert(("Social feed and reviews"@).len() == 23);
    reveal_strlit("🔥");
    assert(("🔥"@).len() == 1);
    assert(("🔥"@)[0] == '🔥');
    reveal_strlit("community.lexicon");
    assert(("community.lexicon"@).len() == 17);
    assert(("community.lexicon"@)[0] == 'c');
    reveal_strlit("Lexicon Community");
    assert(("Lexicon Community"@).len() == 17);
    assert(("Lexicon Community"@)[0] == 'L');
    reveal_strlit("Community events and calendars");
    assert(("Community events and calendars"@).len() == 30);
    assert(("Community events and calendars"@)[1] == 'o');
    reveal_strlit("📅");
    assert(("📅"@).len() == 1);
    assert(("📅"@)[0] == '📅');
    reveal_strlit("com.imlunahey");
    assert(("com.imlunahey"@).len() == 13);
    assert(("com.imlunahey"@)[0] == 'c');
    reveal_strlit("LunaHey");
    assert(("LunaHey"@).len() == 7);
    assert(("LunaHey"@)[0] == 'L');
    assert(("LunaHey"@)[1] == 'u');
    reveal_strlit("Guestbooks and leaderboards");
    assert(("Guestbooks and leaderboards"@).len() == 27);
    assert(("Guestbooks and leaderboards"@)[0] == 'G');
    reveal_strlit("📝");
    assert(("📝"@).len() == 1);
    assert(("📝"@)[0] == '📝');
}

/// The view of a metadata entry.
pub open spec fn meta_view(m: AppMeta) -> (Seq<char>, Seq<char>, Seq<char>, Seq<char>) {
    (m.name@, m.description@, m.icon@, m.color@)
}

fn meta(name: &'static str, description: &'static str, icon: &'static str, color: &'static str) -> (m: AppMeta)
    ensures
        m.name == name,
        m.description == description,
        m.icon == icon,
        m.color == color,
{
    AppMeta { name, description, icon, color }
}

/// Looks `prefix` up in the registry of known applications.
pub fn app_meta(prefix: &str) -> (found: Option<AppMeta>)
    ensures
        match found {
            Some(m) => app_registry(prefix@) == Some(meta_view(m)),
            None => app_registry(prefix@) is None,
        },
{
    if str_eq(prefix, "app.bsky") {
        Some(meta("Bluesky", "Social networking on the AT Protocol", "🦋", "#1185fe"))
    } else if str_eq(prefix, "chat.bsky") {
        Some(meta("Bluesky Chat", "Direct messaging on Bluesky", "💬", "#1185fe"))
    } else if str_eq(prefix, "sh.tangled") {
        Some(meta("Tangled", "Git collaboration on AT Protocol", "🔀", "#6366f1"))
    } else if str_eq(prefix, "dev.keytrace") {
        Some(meta("Keytrace", "Cryptographic key verification", "🔑", "#f59e0b"))
    } else if str_eq(prefix, "fyi.atstore") {
        Some(meta("AT Store", "App directory and reviews", "🏪", "#10b981"))
    } else if str_eq(prefix, "pub.leaflet") {
        Some(meta("Leaflet", "Publishing on AT Protocol", "📰", "#8b5cf6"))
    } else if str_eq(prefix, "site.standard") {
        Some(meta("Standard Site", "Personal websites on AT Protocol", "🌐", "#ec4899"))
    } else if str_eq(prefix, "social.popfeed") {
        Some(meta("Popfeed", "Social feed and reviews", "🔥", "#ef4444"))
    } else if str_eq(prefix, "community.lexicon") {
        Some(meta("Lexicon Community", "Community events and calendars", "📅", "#14b8a6"))
    } else if str_eq(prefix, "com.imlunahey") {
        Some(meta("LunaHey", "Guestbooks and leaderboards", "📝", "#a855f7"))
    } else {
        None
    }
}


/// An application found in a repository: its NSID prefix, display
/// metadata, and the collections that belong to it.
pub struct DiscoveredApp {
    pub nsid_prefix: String,
    pub display_name: String,
    pub description: String,
    pub icon: String,
    pub color: String,
    pub record_count: usize,
    pub collections: Vec<String>,
}

/// What a [`DiscoveredApp`] holds, as plain values.
pub struct DiscoveredAppView {
    pub nsid_prefix: Seq<char>,
    pub display_name: Seq<char>,
    pub description: Seq<char>,
    pub icon: Seq<char>,
    pub color: Seq<char>,
    pub record_count: nat,
    pub collections: Seq<Seq<char>>,
}

impl View for DiscoveredApp {
    type V = DiscoveredAppView;

    open spec fn view(&self) -> DiscoveredAppView {
        DiscoveredAppView {
            nsid_prefix: self.nsid_prefix@,
            display_name: self.display_name@,
            description: self.description@,
            icon: self.icon@,
            color: self.color@,
            record_count: self.record_count as nat,
            collections: self.collections.deep_view(),
        }
    }
}

/// The views of a list of apps.
pub open spec fn apps_view(apps: Seq<DiscoveredApp>) -> Seq<DiscoveredAppView> {
    apps.map_values(|a: DiscoveredApp| a@)
}

/// The distinct NSID prefixes of `cols`, in the order of their first
/// appearance.
pub open spec fn distinct_prefixes(cols: Seq<Seq<char>>) -> Seq<Seq<char>>
    decreases cols.len(),
{
    if cols.len() == 0 {
        Seq::<Seq<char>>::empty()
    } else {
        let prev = distinct_prefixes(cols.drop_last());
        let p = nsid_prefix(cols.last());
        if prev.contains(p) {
            prev
        } else {
            prev.push(p)
        }
    }
}

/// The collections of `cols` whose NSID prefix is `prefix`, in order.
pub open spec fn with_prefix(cols: Seq<Seq<char>>, prefix: Seq<char>) -> Seq<Seq<char>>
    decreases cols.len(),
{
    if cols.len() == 0 {
        Seq::<Seq<char>>::empty()
    } else {
        let prev = with_prefix(cols.drop_last(), prefix);
        if nsid_prefix(cols.last()) == prefix {
            prev.push(cols.last())
        } else {
            prev
        }
    }
}

/// The app that owns `members` under `prefix`, described from the registry,
/// or with the prefix as its name and default metadata when the registry
/// does not know it.
pub open spec fn app_of(prefix: Seq<char>, members: Seq<Seq<char>>) -> DiscoveredAppView {
    match app_registry(prefix) {
        Some((name, description, icon, color)) => DiscoveredAppView {
            nsid_prefix: prefix,
            display_name: name,
            description,
            icon,
            color,
            record_count: members.len(),
            collections: members,
        },
        None => DiscoveredAppView {
            nsid_prefix: prefix,
            display_name: prefix,
            description: "Unknown application"@,
            icon: "📦"@,
            color: "#6b7280"@,
            record_count: members.len(),
            collections: members,
        },
    }
}

/// The apps of a repository with collections `cols`: one per distinct NSID
/// prefix, holding exactly the collections with that prefix.
pub open spec fn discovered_apps(cols: Seq<Seq<char>>) -> Seq<DiscoveredAppView> {
    distinct_prefixes(cols).map_values(|p: Seq<char>| app_of(p, with_prefix(cols, p)))
}

proof fn lemma_unseen_prefix_has_no_members(cols: Seq<Seq<char>>, p: Seq<char>)
    requires
        !distinct_prefixes(cols).contains(p),
    ensures
        with_prefix(cols, p) == Seq::<Seq<char>>::empty(),
    decreases cols.len(),
{
    if cols.len() > 0 {
        let prev = distinct_prefixes(cols.drop_last());
        if prev.contains(p) {
            let q = nsid_prefix(cols.last());
            if !prev.contains(q) {
                let j = choose|j: int| 0 <= j < prev.len() && prev[j] == p;
                assert(prev.push(q)[j] == p);
            }
        }
        lemma_unseen_prefix_has_no_members(cols.drop_last(), p);
        if nsid_prefix(cols.last()) == p {
            let d = distinct_prefixes(cols);
            if !prev.contains(p) {
                assert(d[d.len() - 1] == p);
            }
        }
    }
}

proof fn lemma_distinct_prefixes_no_duplicates(cols: Seq<Seq<char>>)
    ensures
        distinct_prefixes(cols).no_duplicates(),
    decreases cols.len(),
{
    if cols.len() > 0 {
        lemma_distinct_prefixes_no_duplicates(cols.drop_last());
    }
}

/// Builds the app for `prefix` from the collections that carry it.
fn make_app(prefix: String, members: Vec<String>) -> (app: DiscoveredApp)
    ensures
        app@ == app_of(prefix@, members.deep_view()),
{
    let record_count = members.len();
    let found = app_meta(prefix.as_str());
    match found {
        Some(m) => DiscoveredApp {
            nsid_prefix: prefix,
            display_name: String::from_str(m.name),
            description: String::from_str(m.description),
            icon: String::from_str(m.icon),
            color: String::from_str(m.color),
            record_count,
            collections: members,
        },
        None => {
            let display_name = prefix.clone();
            DiscoveredApp {
                nsid_prefix: prefix,
                display_name,
                description: String::from_str("Unknown application"),
                icon: String::from_str("📦"),
                color: String::from_str("#6b7280"),
                record_count,
                collections: members,
            }
        },
    }
}

/// Groups a repository's collections by NSID prefix into apps, one per
/// prefix, in the order in which the prefixes first appear.
pub fn group_collections(collections: &Vec<String>) -> (apps: Vec<DiscoveredApp>)
    ensures
        apps_view(apps@) == discovered_apps(collections.deep_view()),
{
    let ghost cols = collections.deep_view();
    let n = collections.len();
    let mut prefixes: Vec<String> = Vec::new();
    let mut members: Vec<Vec<String>> = Vec::new();
    let mut i: usize = 0;
    while i < n
        invariant
            n == cols.len(),
            cols == collections.deep_view(),
            i <= n,
            prefixes.deep_view() == distinct_prefixes(cols.take(i as int)),
            members@.len() == prefixes@.len(),
            forall|k: int| 0 <= k < members@.len() ==> #[trigger] members@[k].deep_view() == with_prefix(cols.take(i as int), prefixes@[k]@),
        decreases n - i,
    {
        let c = &collections[i];
        let p = extract_nsid_prefix(c.as_str());
        let ghost prev_prefixes = prefixes.deep_view();
        let ghost prev_members = members.deep_view();
        let ghost t = cols.take(i as int);
        let ghost t1 = cols.take(i + 1);
        proof {
            assert(t1.drop_last() =~= t);
            assert(t1.last() == c@);
            assert(cols[i as int] == c@);
        }
        let np = prefixes.len();
        let mut k: usize = 0;
        let mut found = false;
        while k < np
            invariant
                np == prefixes@.len(),
                k <= np,
                !found ==> forall|j: int| 0 <= j < k ==> prefixes@[j]@ != p@,
                found ==> k < np && prefixes@[k as int]@ == p@,
            ensures
                found ==> k < np && prefixes@[k as int]@ == p@,
                !found ==> forall|j: int| 0 <= j < np ==> prefixes@[j]@ != p@,
            decreases np - k,
        {
            if prefixes[k] == p {
                found = true;
                break;
            }
            k = k + 1;
        }
        if found {
            let cc = c.clone();
            members[k].push(cc);
            proof {
                assert(nsid_prefix(c@) == p@);
                assert(with_prefix(t1, p@) == with_prefix(t, p@).push(c@));
                lemma_distinct_prefixes_no_duplicates(t);
                assert(prev_prefixes[k as int] == p@);
                assert(distinct_prefixes(t).contains(p@));
                assert(prefixes.deep_view() =~= distinct_prefixes(t1));
                assert forall|j: int| 0 <= j < members@.len() implies #[trigger] members@[j].deep_view() == with_prefix(t1, prefixes@[j]@) by {
                    assert(prefixes@[j]@ == prev_prefixes[j]);
                    if j == k {
                        assert(members@[j].deep_view() =~= prev_members[j].push(c@));
                    } else {
                        assert(members@[j].deep_view() == prev_members[j]);
                        assert(prev_members[j] == with_prefix(t, prev_prefixes[j]));
                        assert(prev_prefixes[j] != p@);
                        assert(with_prefix(t1, prev_prefixes[j]) == with_prefix(t, prev_prefixes[j]));
                    }
                }
            }
        } else {
            let cc = c.clone();
            let mut group: Vec<String> = Vec::new();
            group.push(cc);
            let pc = p.clone();
            prefixes.push(pc);
            members.push(group);
            proof {
                assert(!distinct_prefixes(t).contains(p@)) by {
                    if distinct_prefixes(t).contains(p@) {
                        let j = choose|j: int| 0 <= j < prev_prefixes.len() && prev_prefixes[j] == p@;
                        assert(prefixes@[j]@ == prev_prefixes[j]);
                    }
                }
                lemma_unseen_prefix_has_no_members(t, p@);
                assert(prefixes.deep_view() =~= distinct_prefixes(t1));
                assert forall|j: int| 0 <= j < members@.len() implies #[trigger] members@[j].deep_view() == with_prefix(t1, prefixes@[j]@) by {
                    if j == members@.len() - 1 {
                        assert(members@[j].deep_view() =~= seq![c@]);
                        assert(with_prefix(t, p@).push(c@) =~= seq![c@]);
                    } else {
                        assert(prefixes@[j]@ == prev_prefixes[j]);
                        assert(prev_prefixes[j] != p@);
                    }
                }
            }
        }
        i = i + 1;
    }
    proof {
        assert(cols.take(n as int) =~= cols);
        assert forall|j: int| 0 <= j < prefixes@.len() implies #[trigger] prefixes@[j]@ == distinct_prefixes(cols)[j] by {
            assert(prefixes.deep_view()[j] == prefixes@[j]@);
        }
    }
    let mut apps: Vec<DiscoveredApp> = Vec::new();
    let np = prefixes.len();
    let mut k: usize = 0;
    while k < np
        invariant
            np == prefixes@.len(),
            members@.len() == np,
            k <= np,
            forall|j: int| k <= j < np ==> #[trigger] prefixes@[j]@ == distinct_prefixes(cols)[j],
            distinct_prefixes(cols).len() == np,
            forall|j: int| k <= j < np ==> #[trigger] members@[j].deep_view() == with_prefix(cols, distinct_prefixes(cols)[j]),
            apps_view(apps@) == discovered_apps(cols).take(k as int),
        decreases np - k,
    {
        let ghost pk = prefixes@[k as int]@;
        let ghost mk = members@[k as int].deep_view();
        let mut prefix = String::new();
        std::mem::swap(&mut prefix, &mut prefixes[k]);
        let mut group: Vec<String> = Vec::new();
        std::mem::swap(&mut group, &mut members[k]);
        proof {
            assert(prefix@ == pk);
            assert(group.deep_view() == mk);
        }
        let app = make_app(prefix, group);
        let ghost before = apps@;
        apps.push(app);
        proof {
            let d = discovered_apps(cols);
            assert(d[k as int] == app_of(pk, mk));
            assert(apps_view(apps@) =~= apps_view(before).push(app@));
            assert(d.take(k + 1) =~= d.take(k as int).push(d[k as int]));
            assert(apps_view(apps@) =~= discovered_apps(cols).take(k + 1));
        }
        k = k + 1;
    }
    proof {
        assert(discovered_apps(cols).take(np as int) =~= discovered_apps(cols));
    }
    apps
}


// ---------------------------------------------------------------------------
// What grouping guarantees.

/// The number of collections over all apps.
pub open spec fn total_records(apps: Seq<DiscoveredAppView>) -> nat
    decreases apps.len(),
{
    if apps.len() == 0 {
        0
    } else {
        total_records(apps.drop_last()) + apps.last().record_count
    }
}

/// The number of members over a list of prefixes.
spec fn members_over(cols: Seq<Seq<char>>, prefixes: Seq<Seq<char>>) -> nat
    decreases prefixes.len(),
{
    if prefixes.len() == 0 {
        0
    } else {
        members_over(cols, prefixes.drop_last()) + with_prefix(cols, prefixes.last()).len()
    }
}

proof fn lemma_total_is_members_over(cols: Seq<Seq<char>>, prefixes: Seq<Seq<char>>)
    ensures
        total_records(prefixes.map_values(|p: Seq<char>| app_of(p, with_prefix(cols, p)))) == members_over(cols, prefixes),
    decreases prefixes.len(),
{
    let apps = prefixes.map_values(|p: Seq<char>| app_of(p, with_prefix(cols, p)));
    if prefixes.len() > 0 {
        assert(apps.drop_last() =~= prefixes.drop_last().map_values(|p: Seq<char>| app_of(p, with_prefix(cols, p))));
        lemma_total_is_members_over(cols, prefixes.drop_last());
    }
}

/// Adding one collection with prefix `p` to the repository adds one member
/// over any list of distinct prefixes that holds `p` once, and none over a
/// list that does not hold it.
proof fn lemma_members_over_step(cols: Seq<Seq<char>>, c: Seq<char>, prefixes: Seq<Seq<char>>)
    requires
        prefixes.no_duplicates(),
    ensures
        members_over(cols.push(c), prefixes) == members_over(cols, prefixes) + (if prefixes.contains(nsid_prefix(c)) { 1int } else { 0int }),
    decreases prefixes.len(),
{
    let full = cols.push(c);
    assert(full.drop_last() =~= cols);
    if prefixes.len() > 0 {
        let rest = prefixes.drop_last();
        assert(rest.no_duplicates()) by {
            assert forall|i: int, j: int| 0 <= i < rest.len() && 0 <= j < rest.len() && i != j implies rest[i] != rest[j] by {
                assert(rest[i] == prefixes[i] && rest[j] == prefixes[j]);
            }
        }
        lemma_members_over_step(cols, c, rest);
        let q = prefixes.last();
        let p = nsid_prefix(c);
        if rest.contains(p) {
            let j = choose|j: int| 0 <= j < rest.len() && rest[j] == p;
            assert(prefixes[j] == p);
            assert(q != p);
            assert(prefixes.contains(p));
        } else if q == p {
            assert(prefixes[prefixes.len() - 1] == p);
        } else {
            if prefixes.contains(p) {
                let j = choose|j: int| 0 <= j < prefixes.len() && prefixes[j] == p;
                if j < prefixes.len() - 1 {
                    assert(rest[j] == p);
                }
            }
        }
    }
}

proof fn lemma_members_over_all(cols: Seq<Seq<char>>)
    ensures
        members_over(cols, distinct_prefixes(cols)) == cols.len(),
    decreases cols.len(),
{
    if cols.len() > 0 {
        let prev_cols = cols.drop_last();
        let c = cols.last();
        assert(prev_cols.push(c) =~= cols);
        let prev = distinct_prefixes(prev_cols);
        let p = nsid_prefix(c);
        lemma_members_over_all(prev_cols);
        lemma_distinct_prefixes_no_duplicates(prev_cols);
        lemma_distinct_prefixes_no_duplicates(cols);
        lemma_members_over_step(prev_cols, c, distinct_prefixes(cols));
        if prev.contains(p) {
            assert(distinct_prefixes(cols) == prev);
        } else {
            assert(distinct_prefixes(cols) == prev.push(p));
            lemma_unseen_prefix_has_no_members(prev_cols, p);
            assert(prev.push(p).drop_last() =~= prev);
            assert(members_over(prev_cols, prev.push(p)) == members_over(prev_cols, prev) + with_prefix(prev_cols, p).len());
            assert(prev.push(p)[prev.len() as int] == p);
        }
    }
}

/// Every member of `with_prefix(cols, p)` is a collection of `cols` that
/// carries the prefix `p`, and every such collection is a member.
proof fn lemma_with_prefix_members(cols: Seq<Seq<char>>, p: Seq<char>, c: Seq<char>)
    ensures
        with_prefix(cols, p).contains(c) <==> (cols.contains(c) && nsid_prefix(c) == p),
    decreases cols.len(),
{
    if cols.len() > 0 {
        let prev = cols.drop_last();
        lemma_with_prefix_members(prev, p, c);
        let w = with_prefix(cols, p);
        let wp = with_prefix(prev, p);
        if cols.contains(c) && nsid_prefix(c) == p {
            let i = choose|i: int| 0 <= i < cols.len() && cols[i] == c;
            if i < cols.len() - 1 {
                assert(prev[i] == c);
                if nsid_prefix(cols.last()) == p {
                    let k = choose|k: int| 0 <= k < wp.len() && wp[k] == c;
                    assert(w[k] == c);
                }
            } else {
                assert(w[w.len() - 1] == c);
            }
        }
        if w.contains(c) {
            let k = choose|k: int| 0 <= k < w.len() && w[k] == c;
            if nsid_prefix(cols.last()) == p && k == w.len() - 1 {
                assert(cols[cols.len() - 1] == c);
            } else {
                assert(wp[k] == c);
                let i = choose|i: int| 0 <= i < prev.len() && prev[i] == c;
                assert(cols[i] == c);
            }
        }
    }
}

proof fn lemma_prefix_of_member_is_listed(cols: Seq<Seq<char>>, i: int)
    requires
        0 <= i < cols.len(),
    ensures
        distinct_prefixes(cols).contains(nsid_prefix(cols[i])),
    decreases cols.len(),
{
    let prev = cols.drop_last();
    let d = distinct_prefixes(cols);
    let dp = distinct_prefixes(prev);
    let p = nsid_prefix(cols[i]);
    if i < cols.len() - 1 {
        assert(prev[i] == cols[i]);
        lemma_prefix_of_member_is_listed(prev, i);
        let j = choose|j: int| 0 <= j < dp.len() && dp[j] == p;
        assert(d[j] == p);
    } else if !dp.contains(p) {
        assert(d[d.len() - 1] == p);
    }
}

/// Grouping partitions a repository's collections into apps: no two apps
/// share a prefix; an app holds exactly the collections that carry its
/// prefix, and counts them; every collection lands in the app of its
/// prefix; and the counts add up to the number of collections.
pub proof fn law_grouping_partitions_collections(cols: Seq<Seq<char>>)
    ensures
        forall|i: int, j: int|
            0 <= i < discovered_apps(cols).len() && 0 <= j < discovered_apps(cols).len() && i != j
            ==> #[trigger] discovered_apps(cols)[i].nsid_prefix != #[trigger] discovered_apps(cols)[j].nsid_prefix,
        forall|i: int, c: Seq<char>| 0 <= i < discovered_apps(cols).len() ==> (
            #[trigger] discovered_apps(cols)[i].collections.contains(c) <==> (cols.contains(c) && nsid_prefix(c) == discovered_apps(cols)[i].nsid_prefix)),
        forall|i: int| 0 <= i < discovered_apps(cols).len() ==>
            #[trigger] discovered_apps(cols)[i].record_count == discovered_apps(cols)[i].collections.len(),
        forall|k: int| 0 <= k < cols.len() ==> exists|i: int|
            0 <= i < discovered_apps(cols).len() && #[trigger] discovered_apps(cols)[i].nsid_prefix == nsid_prefix(#[trigger] cols[k])
            && discovered_apps(cols)[i].collections.contains(cols[k]),
        total_records(discovered_apps(cols)) == cols.len(),
{
    let d = distinct_prefixes(cols);
    let apps = discovered_apps(cols);
    lemma_distinct_prefixes_no_duplicates(cols);
    assert forall|i: int, j: int| 0 <= i < apps.len() && 0 <= j < apps.len() && i != j implies #[trigger] apps[i].nsid_prefix != #[trigger] apps[j].nsid_prefix by {
        assert(apps[i].nsid_prefix == d[i]);
        assert(apps[j].nsid_prefix == d[j]);
    }
    assert forall|i: int, c: Seq<char>| 0 <= i < apps.len() implies (#[trigger] apps[i].collections.contains(c) <==> (cols.contains(c) && nsid_prefix(c) == apps[i].nsid_prefix)) by {
        lemma_with_prefix_members(cols, d[i], c);
    }
    assert forall|k: int| 0 <= k < cols.len() implies exists|i: int|
        0 <= i < apps.len() && #[trigger] apps[i].nsid_prefix == nsid_prefix(#[trigger] cols[k]) && apps[i].collections.contains(cols[k]) by {
        lemma_prefix_of_member_is_listed(cols, k);
        let i = choose|i: int| 0 <= i < d.len() && d[i] == nsid_prefix(cols[k]);
        assert(cols.contains(cols[k]));
        lemma_with_prefix_members(cols, d[i], cols[k]);
        assert(apps[i].nsid_prefix == nsid_prefix(cols[k]));
    }
    lemma_total_is_members_over(cols, d);
    lemma_members_over_all(cols);
}

} // verus!
