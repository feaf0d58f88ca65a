use vstd::prelude::*;

use crate::text::str_eq;
use crate::url::{remaining_parts, AppUrl};

verus! {

/// The path segment of the settings page.
pub const SETTINGS: &'static str = "settings";

/// Which page an address selects.
#[derive(PartialEq, Eq, Structural, Clone, Copy, Debug)]
pub enum Route {
    Home,
    Settings,
    NotFound,
}

/// The page that the path segments after the base path select: none is the
/// home page, the single segment `settings` the settings page, anything else
/// no page.
pub open spec fn route_of(parts: Seq<Seq<char>>) -> Route {
    if parts.len() == 0 {
        Route::Home
    } else if parts.len() == 1 && parts[0] == "settings"@ {
        Route::Settings
    } else {
        Route::NotFound
    }
}

/// The page that an address selects.
pub fn route(url: &AppUrl) -> (r: Route)
    ensures
        r == route_of(remaining_parts(*url)),
{
    let n = url.path.len();
    if url.base_len > n || url.base_len == n {
        Route::Home
    } else if n - url.base_len == 1 {
        let seg = url.path[url.base_len].as_str();
        proof {
            assert(remaining_parts(*url)[0] == url.path@[url.base_len as int]@);
        }
        if str_eq(seg, SETTINGS) {
            proof {
                reveal_strlit("settings");
            }
            Route::Settings
        } else {
            proof {
                reveal_strlit("settings");
            }
            Route::NotFound
        }
    } else {
        Route::NotFound
    }
}

/// The state of the settings page, begun afresh from the address each time
/// the page is opened.
#[derive(Clone, Debug, PartialEq, Eq)]
pub struct SettingsPage {
    pub url: AppUrl,
}

impl SettingsPage {
    /// A settings page opened at the given address.
    pub fn init(url: AppUrl) -> (r: SettingsPage)
        ensures
            r.url == url,
    {
        SettingsPage { url }
    }
}

/// The page on display, with the state of its own.
#[derive(Clone, Debug, PartialEq, Eq)]
pub enum Page {
    Home,
    Settings(SettingsPage),
    NotFound,
}

/// The page that an address opens: its route, and for the settings page a
/// fresh state begun from that address.
pub open spec fn page_for(url: AppUrl) -> Page {
    match route_of(remaining_parts(url)) {
        Route::Home => Page::Home,
        Route::Settings => Page::Settings(SettingsPage { url }),
        Route::NotFound => Page::NotFound,
    }
}

impl Page {
    /// Opens the page that an address selects.
    pub fn init(url: AppUrl) -> (r: Page)
        ensures
            r == page_for(url),
    {
        match route(&url) {
            Route::Home => Page::Home,
            Route::Settings => Page::Settings(SettingsPage::init(url)),
            Route::NotFound => Page::NotFound,
        }
    }
}

} // verus!
