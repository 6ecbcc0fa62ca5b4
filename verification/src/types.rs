//! The app listing as the client receives it.

use vstd::prelude::*;

use crate::repo;

verus! {

/// An application as shown on the dashboard. `url` is the application's
/// site, empty when none is known.
pub struct DiscoveredApp {
    pub nsid_prefix: String,
    pub display_name: String,
    pub icon: String,
    pub color: String,
    pub url: String,
    pub record_count: usize,
    pub collections: Vec<String>,
}

/// The client's record of a server-side app: the same prefix, name, icon,
/// color, count and collections; the server knows no site, so `url` is
/// empty.
pub open spec fn client_app_of(c: DiscoveredApp, s: repo::DiscoveredApp) -> bool {
    &&& c.nsid_prefix == s.nsid_prefix
    &&& c.display_name == s.display_name
    &&& c.icon == s.icon
    &&& c.color == s.color
    &&& c.url@.len() == 0
    &&& c.record_count == s.record_count
    &&& c.collections == s.collections
}

/// Converts a server-side app into the client's record of it.
pub fn client_app(app: repo::DiscoveredApp) -> (c: DiscoveredApp)
    ensures
        client_app_of(c, app),
{
    DiscoveredApp {
        nsid_prefix: app.nsid_prefix,
        display_name: app.display_name,
        icon: app.icon,
        color: app.color,
        url: String::new(),
        record_count: app.record_count,
        collections: app.collections,
    }
}

/// Converts the server's app list into the client's, in order.
pub fn client_apps(apps: Vec<repo::DiscoveredApp>) -> (out: Vec<DiscoveredApp>)
    ensures
        out@.len() == apps@.len(),
        forall|i: int| 0 <= i < apps@.len() ==> client_app_of(#[trigger] out@[i], apps@[i]),
{
    let ghost orig = apps@;
    let mut apps = apps;
    let mut rev: Vec<DiscoveredApp> = Vec::new();
    while apps.len() > 0
        invariant
            apps@ == orig.take(apps@.len() as int),
            apps@.len() + rev@.len() == orig.len(),
            forall|i: int| 0 <= i < rev@.len() ==> client_app_of(#[trigger] rev@[i], orig[orig.len() - 1 - i]),
        decreases apps@.len(),
    {
        let a = apps.pop().unwrap();
        rev.push(client_app(a));
        assert(apps@ =~= orig.take(apps@.len() as int));
    }
    let mut out: Vec<DiscoveredApp> = Vec::new();
    while rev.len() > 0
        invariant
            rev@.len() + out@.len() == orig.len(),
            forall|i: int| 0 <= i < rev@.len() ==> client_app_of(#[trigger] rev@[i], orig[orig.len() - 1 - i]),
            forall|i: int| 0 <= i < out@.len() ==> client_app_of(#[trigger] out@[i], orig[i]),
        decreases rev@.len(),
    {
        let a = rev.pop().unwrap();
        out.push(a);
    }
    out
}

} // verus!
