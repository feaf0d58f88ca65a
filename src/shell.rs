use vstd::prelude::*;

use crate::page::{page_for, Page};
use crate::session::{AuthConfig, Context, Identity};
use crate::url::{base_parts, clean_query, cleaned_query, has_redirect_params, same_url, AppUrl};

verus! {

/// A message that the settings page handles itself.
#[derive(Clone, Debug, PartialEq, Eq)]
pub struct SettingsMsg {
    pub event: String,
}

/// The whole state of the application.
#[derive(Clone, Debug, PartialEq, Eq)]
pub struct Model {
    pub ctx: Context,
    pub base_url: AppUrl,
    /// The address on display.
    pub url: AppUrl,
    pub page: Page,
    pub menu_visible: bool,
    pub auth_config: Option<AuthConfig>,
}

/// An event: a change of address, a click, or the outcome of work that a
/// command started. Outside failures carry the text to report.
#[derive(Debug, PartialEq, Eq)]
pub enum Msg {
    UrlChanged(AppUrl),
    ToggleMenu,
    HideMenu,
    AuthConfigFetched(Result<AuthConfig, String>),
    AuthInitialized(Result<Identity, String>),
    TokenObtained(Result<String, String>),
    Registered(Result<String, String>),
    SignUp,
    LogIn,
    LogOut,
    LoggedOut(Result<(), String>),
    RedirectingToSignUp(Result<(), String>),
    RedirectingToLogIn(Result<(), String>),
    SettingsMsg(SettingsMsg),
}

/// Work that the dispatcher asks of its host; each result comes back as a
/// `Msg`.
#[derive(Clone, Debug, PartialEq, Eq)]
pub enum Command {
    /// Fetch the identity provider's configuration.
    FetchAuthConfig,
    /// Initialize the identity provider.
    InitAuth { domain: String, client_id: String, audience: String },
    /// Ask the identity provider for a token without user interaction.
    RequestToken,
    /// Register the user with the backend, the token as bearer credential.
    Register { token: String },
    /// Replace the browser's history entry with this address, without a
    /// reload.
    ReplaceHistory { url: AppUrl },
    /// Send the browser to the provider's sign-up page.
    RedirectToSignUp,
    /// Send the browser to the provider's login page.
    RedirectToLogIn,
    /// Ask the identity provider to end its session.
    LogOut,
    /// Hand a message to the settings page.
    ToSettings(SettingsMsg),
    /// Nothing visible changed: the view need not be drawn again.
    SkipRender,
}

/// Whether the page on display is the settings page.
pub open spec fn on_settings(page: Page) -> bool {
    page is Settings
}

/// What the cleanup of the address on display asks of the host: where the
/// query held both redirect parameters, to write the cleaned address to
/// the history; otherwise nothing.
pub open spec fn history_commands(cmds: Seq<Command>, before: AppUrl, after: AppUrl) -> bool {
    if has_redirect_params(before.query@) {
        &&& cmds.len() == 1
        &&& match cmds[0] {
            Command::ReplaceHistory { url } => same_url(url, after),
            _ => false,
        }
    } else {
        cmds.len() == 0
    }
}

/// The address that the cleanup leaves: the same path, the query cleaned.
pub open spec fn cleaned_url(before: AppUrl, after: AppUrl) -> bool {
    &&& after.path == before.path
    &&& after.base_len == before.base_len
    &&& after.query@ == cleaned_query(before.query@)
}

/// One step of the application: `after` and `cmds` are the state and the
/// commands that `msg` yields from `before`.
pub open spec fn next(before: Model, msg: Msg, after: Model, cmds: Seq<Command>) -> bool {
    match msg {
        Msg::UrlChanged(url) => {
            &&& after.page == page_for(url)
            &&& same_url(after.url, url)
            &&& after.ctx == before.ctx
            &&& after.base_url == before.base_url
            &&& after.menu_visible == before.menu_visible
            &&& after.auth_config == before.auth_config
            &&& cmds == Seq::<Command>::empty()
        },
        Msg::ToggleMenu => {
            &&& after == (Model { menu_visible: !before.menu_visible, ..before })
            &&& cmds == Seq::<Command>::empty()
        },
        Msg::HideMenu => {
            &&& after == (Model { menu_visible: false, ..before })
            &&& cmds == (if before.menu_visible {
                Seq::<Command>::empty()
            } else {
                seq![Command::SkipRender]
            })
        },
        Msg::AuthConfigFetched(Ok(cfg)) => {
            &&& after == (Model { auth_config: Some(cfg), ..before })
            &&& cmds == seq![
                Command::InitAuth {
                    domain: cfg.domain,
                    client_id: cfg.client_id,
                    audience: cfg.audience,
                },
            ]
        },
        Msg::AuthInitialized(Ok(identity)) => {
            &&& after.ctx == (match identity {
                Identity::Claims(u) => Context { user: Some(u), ..before.ctx },
                _ => before.ctx,
            })
            &&& after.page == before.page
            &&& after.menu_visible == before.menu_visible
            &&& after.auth_config == before.auth_config
            &&& cleaned_url(before.base_url, after.base_url)
            &&& cleaned_url(before.url, after.url)
            &&& match identity {
                Identity::Claims(_) => {
                    &&& cmds.len() >= 1
                    &&& cmds[0] == Command::RequestToken
                    &&& history_commands(cmds.drop_first(), before.url, after.url)
                },
                _ => history_commands(cmds, before.url, after.url),
            }
        },
        // The token joins the session only while a user is signed in; the
        // registration goes ahead either way, as nothing is cancelled.
        Msg::TokenObtained(Ok(token)) => {
            &&& after == (if before.ctx.user is Some {
                Model { ctx: Context { token: Some(token), ..before.ctx }, ..before }
            } else {
                before
            })
            &&& cmds == seq![Command::Register { token }]
        },
        Msg::SignUp => {
            &&& after == before
            &&& cmds == seq![Command::RedirectToSignUp]
        },
        Msg::LogIn => {
            &&& after == before
            &&& cmds == seq![Command::RedirectToLogIn]
        },
        Msg::LogOut => {
            &&& after == before
            &&& cmds == seq![Command::LogOut]
        },
        // A logout clears the user and keeps the bearer token. Whether the
        // token should be cleared too is an open question of the design.
        Msg::LoggedOut(Ok(())) => {
            &&& after == (Model { ctx: Context { user: None, ..before.ctx }, ..before })
            &&& cmds == Seq::<Command>::empty()
        },
        Msg::SettingsMsg(m) => {
            &&& after == before
            &&& cmds == (if on_settings(before.page) {
                seq![Command::ToSettings(m)]
            } else {
                Seq::<Command>::empty()
            })
        },
        // Failures are reported by the host and change nothing; the outcome
        // of a redirect or of the registration changes nothing either.
        _ => {
            &&& after == before
            &&& cmds == Seq::<Command>::empty()
        },
    }
}

/// The model at startup, and the commands that start the login chain.
pub open spec fn initial(url: AppUrl, m: Model, cmds: Seq<Command>) -> bool {
    &&& m.ctx.user.is_none()
    &&& m.ctx.token.is_none()
    &&& m.base_url.path@ == base_parts(url)
    &&& m.base_url.base_len == base_parts(url).len()
    &&& m.base_url.query@ == url.query@
    &&& same_url(m.url, url)
    &&& m.page == page_for(url)
    &&& !m.menu_visible
    &&& m.auth_config.is_none()
    &&& cmds == seq![Command::FetchAuthConfig]
}

/// Starts the application at the given address.
pub fn init(url: AppUrl) -> (r: (Model, Vec<Command>))
    ensures
        initial(url, r.0, r.1@),
{
    let base_url = url.to_base_url();
    let current = url.copied();
    let model = Model {
        ctx: Context::anonymous(),
        base_url,
        url: current,
        page: Page::init(url),
        menu_visible: false,
        auth_config: None,
    };
    let cmds = vec![Command::FetchAuthConfig];
    assert(cmds@ =~= seq![Command::FetchAuthConfig]);
    (model, cmds)
}

} // verus!

verus! {

/// Applies one event to the model and returns the work it asks for.
pub fn update(msg: Msg, model: &mut Model) -> (cmds: Vec<Command>)
    ensures
        next(*old(model), msg, *final(model), cmds@),
{
    match msg {
        Msg::UrlChanged(url) => {
            model.url = url.copied();
            model.page = Page::init(url);
            Vec::new()
        },
        Msg::ToggleMenu => {
            model.menu_visible = !model.menu_visible;
            Vec::new()
        },
        Msg::HideMenu => {
            if model.menu_visible {
                model.menu_visible = false;
                Vec::new()
            } else {
                let cmds = vec![Command::SkipRender];
                assert(cmds@ =~= seq![Command::SkipRender]);
                cmds
            }
        },
        Msg::AuthConfigFetched(Ok(cfg)) => {
            let domain = cfg.domain.clone();
            let client_id = cfg.client_id.clone();
            let audience = cfg.audience.clone();
            model.auth_config = Some(cfg);
            let cmds = vec![Command::InitAuth { domain, client_id, audience }];
            assert(cmds@ =~= seq![(Command::InitAuth { domain, client_id, audience })]);
            cmds
        },
        Msg::AuthInitialized(Ok(identity)) => {
            let mut cmds: Vec<Command> = Vec::new();
            match identity {
                Identity::Claims(user) => {
                    model.ctx.user = Some(user);
                    cmds.push(Command::RequestToken);
                },
                _ => {},
            }
            let ghost first = cmds@;
            let (base_query, _) = clean_query(&model.base_url.query);
            model.base_url.query = base_query;
            let (query, changed) = clean_query(&model.url.query);
            model.url.query = query;
            if changed {
                cmds.push(Command::ReplaceHistory { url: model.url.copied() });
            }
            assert(cmds@.subrange(0, first.len() as int) =~= first);
            assert(cmds@.drop_first() =~= cmds@.subrange(1, cmds@.len() as int));
            cmds
        },
        Msg::TokenObtained(Ok(token)) => {
            if model.ctx.user.is_some() {
                model.ctx.token = Some(token.clone());
            }
            let cmds = vec![Command::Register { token }];
            assert(cmds@ =~= seq![(Command::Register { token })]);
            cmds
        },
        Msg::SignUp => {
            let cmds = vec![Command::RedirectToSignUp];
            assert(cmds@ =~= seq![Command::RedirectToSignUp]);
            cmds
        },
        Msg::LogIn => {
            let cmds = vec![Command::RedirectToLogIn];
            assert(cmds@ =~= seq![Command::RedirectToLogIn]);
            cmds
        },
        Msg::LogOut => {
            let cmds = vec![Command::LogOut];
            assert(cmds@ =~= seq![Command::LogOut]);
            cmds
        },
        // A logout clears the user and keeps the bearer token. Whether the
        // token should be cleared too is an open question of the design.
        Msg::LoggedOut(Ok(())) => {
            model.ctx.user = None;
            Vec::new()
        },
        Msg::SettingsMsg(m) => {
            match &model.page {
                Page::Settings(_) => {
                    let cmds = vec![Command::ToSettings(m)];
                    assert(cmds@ =~= seq![Command::ToSettings(m)]);
                    cmds
                },
                _ => Vec::new(),
            }
        },
        _ => Vec::new(),
    }
}

} // verus!
