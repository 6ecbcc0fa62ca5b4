//! What the pages of the dashboard show, decided from their state.

use vstd::prelude::*;

use crate::text::{copy_str, join2};
use crate::types::DiscoveredApp;

verus! {

/// The home page shows the signed-in header and the dashboard when the
/// session is authenticated and the user has not just logged out; otherwise
/// it shows the login form.
pub fn shows_dashboard(is_authenticated: bool, logged_out: bool) -> (shows: bool)
    ensures
        shows == (is_authenticated && !logged_out),
{
    is_authenticated && !logged_out
}

/// The login button is disabled while a login is under way or while no
/// handle has been typed.
pub fn login_button_disabled(is_loading: bool, handle: &str) -> (disabled: bool)
    ensures
        disabled == (is_loading || handle@.len() == 0),
{
    is_loading || handle.is_empty()
}

/// The login button's label.
pub fn login_button_label(is_loading: bool) -> (label: &'static str)
    ensures
        label@ == (if is_loading { "Connecting..."@ } else { "Login with AT Protocol"@ }),
{
    if is_loading {
        "Connecting..."
    } else {
        "Login with AT Protocol"
    }
}

/// What the dashboard shows.
pub enum DashboardView {
    /// The scan is still running.
    Loading,
    /// The scan found no apps.
    Empty,
    /// The scan found apps; they are shown as cards.
    Apps,
    /// The scan failed with this message.
    Failed { message: String },
}

/// Decides what the dashboard shows for the state of the scan: `None`
/// while it runs, then its result.
pub fn dashboard_view(scan: &Option<Result<Vec<DiscoveredApp>, String>>) -> (view: DashboardView)
    ensures
        match scan {
            None => view is Loading,
            Some(Ok(apps)) => if apps@.len() == 0 { view is Empty } else { view is Apps },
            Some(Err(e)) => view matches DashboardView::Failed { message } && message@ == "Failed to scan apps: "@ + e@,
        },
{
    match scan {
        None => DashboardView::Loading,
        Some(Ok(apps)) => if apps.len() == 0 {
            DashboardView::Empty
        } else {
            DashboardView::Apps
        },
        Some(Err(e)) => DashboardView::Failed { message: join2("Failed to scan apps: ", e.as_str()) },
    }
}

/// What a card of the dashboard shows besides the app's own fields.
pub struct AppCardView {
    /// Whether the icon and name link to the app's site.
    pub has_url: bool,
    /// The label under the name: the NSID prefix followed by `.*`.
    pub nsid_label: String,
    /// The collections listed on the card: the first three.
    pub preview: Vec<String>,
    /// How many collections are not listed, when there are any.
    pub more: Option<usize>,
}

/// Decides what the card of `app` shows.
pub fn app_card_view(app: &DiscoveredApp) -> (card: AppCardView)
    ensures
        card.has_url == (app.url@.len() > 0),
        card.nsid_label@ == app.nsid_prefix@ + ".*"@,
        card.preview.deep_view() == app.collections.deep_view().take(
            if app.collections@.len() < 3 { app.collections@.len() as int } else { 3 },
        ),
        card.more == (if app.collections@.len() > 3 { Some((app.collections@.len() - 3) as usize) } else { None::<usize> }),
{
    let n = app.collections.len();
    let shown: usize = if n < 3 { n } else { 3 };
    let mut preview: Vec<String> = Vec::new();
    let mut i: usize = 0;
    while i < shown
        invariant
            shown <= n,
            n == app.collections@.len(),
            i <= shown,
            preview.deep_view() == app.collections.deep_view().take(i as int),
        decreases shown - i,
    {
        let ghost before = preview.deep_view();
        let c = copy_str(app.collections[i].as_str());
        assert(c@ == app.collections.deep_view()[i as int]);
        preview.push(c);
        assert(preview.deep_view() =~= before.push(c@));
        i = i + 1;
        assert(preview.deep_view() =~= app.collections.deep_view().take(i as int));
    }
    let more = if n > 3 { Some(n - 3) } else { None };
    AppCardView {
        has_url: app.url.as_str().unicode_len() > 0,
        nsid_label: join2(app.nsid_prefix.as_str(), ".*"),
        preview,
        more,
    }
}

} // verus!
