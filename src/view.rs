use vstd::prelude::*;

use crate::page::{Page, Route};
use crate::shell::Model;

verus! {

/// The buttons at the end of the navigation bar.
#[derive(Clone, Debug, PartialEq, Eq)]
pub enum Buttons {
    /// A link to the settings under the user's nickname, and a logout button.
    LoggedIn { nickname: String },
    /// A sign-up button and a login button.
    Anonymous,
}

/// What the view draws of a model: whether the menu is open, which buttons
/// the navigation bar holds, and which page's content follows.
#[derive(Clone, Debug, PartialEq, Eq)]
pub struct Layout {
    pub menu_active: bool,
    pub buttons: Buttons,
    pub content: Route,
}

/// The route of the page on display.
pub open spec fn route_of_page(page: Page) -> Route {
    match page {
        Page::Home => Route::Home,
        Page::Settings(_) => Route::Settings,
        Page::NotFound => Route::NotFound,
    }
}

/// What the view draws of a model.
pub fn layout(model: &Model) -> (r: Layout)
    ensures
        r.menu_active == model.menu_visible,
        r.content == route_of_page(model.page),
        r.buttons == (match model.ctx.user {
            Some(u) => Buttons::LoggedIn { nickname: u.nickname },
            None => Buttons::Anonymous,
        }),
{
    let buttons = match &model.ctx.user {
        Some(u) => Buttons::LoggedIn { nickname: u.nickname.clone() },
        None => Buttons::Anonymous,
    };
    let content = match &model.page {
        Page::Home => Route::Home,
        Page::Settings(_) => Route::Settings,
        Page::NotFound => Route::NotFound,
    };
    Layout { menu_active: model.menu_visible, buttons, content }
}

} // verus!
