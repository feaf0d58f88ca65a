use vstd::prelude::*;

use crate::page::{page_for, route_of, Page, SettingsPage};
use crate::session::{AuthConfig, Identity, User};
use crate::shell::{next, Command, Model, Msg};
use crate::url::{cleaned_query, has_redirect_params, remaining_parts, same_url, AppUrl};

verus! {

/// Whether a command asks for a token or registers with the backend.
pub open spec fn starts_registration(c: Command) -> bool {
    c is RequestToken || c is Register
}

/// Routing is total and depends on the address alone: a change of address
/// opens the page that the address selects, with a fresh state, whatever
/// page was on display before.
pub proof fn lemma_reroute(
    m1: Model,
    m2: Model,
    url: AppUrl,
    a1: Model,
    a2: Model,
    c1: Seq<Command>,
    c2: Seq<Command>,
)
    requires
        next(m1, Msg::UrlChanged(url), a1, c1),
        next(m2, Msg::UrlChanged(url), a2, c2),
    ensures
        a1.page == a2.page,
        a1.page == page_for(url),
        route_of(remaining_parts(url)) is Home ==> a1.page is Home,
        route_of(remaining_parts(url)) is Settings ==> a1.page == Page::Settings(
            SettingsPage { url },
        ),
        route_of(remaining_parts(url)) is NotFound ==> a1.page is NotFound,
{
}

/// Toggling the hidden menu shows it, and toggling again hides it.
pub proof fn lemma_toggle_twice(m: Model, a: Model, b: Model, c1: Seq<Command>, c2: Seq<Command>)
    requires
        !m.menu_visible,
        next(m, Msg::ToggleMenu, a, c1),
        next(a, Msg::ToggleMenu, b, c2),
    ensures
        a.menu_visible,
        !b.menu_visible,
        c1.len() == 0,
        c2.len() == 0,
{
}

/// Hiding a menu that is already hidden changes nothing and says so, while
/// hiding a visible menu is a change to draw.
pub proof fn lemma_hide_menu(m: Model, a: Model, c: Seq<Command>)
    requires
        next(m, Msg::HideMenu, a, c),
    ensures
        !a.menu_visible,
        !m.menu_visible ==> a == m && c == seq![Command::SkipRender],
        m.menu_visible ==> c.len() == 0,
{
}

/// A fetched configuration starts exactly one initialization of the
/// identity provider, with the configuration's domain, client id and
/// audience.
pub proof fn lemma_config_starts_init(m: Model, cfg: AuthConfig, a: Model, c: Seq<Command>)
    requires
        next(m, Msg::AuthConfigFetched(Ok(cfg)), a, c),
    ensures
        c == seq![
            Command::InitAuth {
                domain: cfg.domain,
                client_id: cfg.client_id,
                audience: cfg.audience,
            },
        ],
        a.auth_config == Some(cfg),
        a.ctx == m.ctx,
{
}

/// A provider that reports no user leaves the session as it is and starts
/// no registration.
pub proof fn lemma_anonymous_no_registration(m: Model, a: Model, c: Seq<Command>)
    requires
        next(m, Msg::AuthInitialized(Ok(Identity::Anonymous)), a, c),
    ensures
        a.ctx == m.ctx,
        forall|i: int| 0 <= i < c.len() ==> !starts_registration(#[trigger] c[i]),
{
}

/// Decoded claims sign the user in and ask for exactly one token, which is
/// the only step towards registration.
pub proof fn lemma_claims_request_token(m: Model, u: User, a: Model, c: Seq<Command>)
    requires
        next(m, Msg::AuthInitialized(Ok(Identity::Claims(u))), a, c),
    ensures
        a.ctx.user == Some(u),
        a.ctx.token == m.ctx.token,
        c.len() >= 1,
        c[0] is RequestToken,
        forall|i: int| 1 <= i < c.len() ==> !starts_registration(#[trigger] c[i]),
{
}

/// A token obtained without user interaction is used for exactly one
/// registration call, and becomes the session's bearer token only while a
/// user is signed in.
pub proof fn lemma_token_registers(m: Model, token: String, a: Model, c: Seq<Command>)
    requires
        next(m, Msg::TokenObtained(Ok(token)), a, c),
    ensures
        m.ctx.user is Some ==> a.ctx.token == Some(token),
        m.ctx.user is None ==> a.ctx == m.ctx,
        a.ctx.user == m.ctx.user,
        c == seq![Command::Register { token }],
{
}

/// Failures stop the chain where they happen: a failed configuration fetch,
/// a failed initialization, claims that do not decode, or a failed token
/// request leave the session unchanged and start no further step.
pub proof fn lemma_failure_isolation(m: Model, msg: Msg, a: Model, c: Seq<Command>)
    requires
        next(m, msg, a, c),
        msg is AuthConfigFetched && msg->AuthConfigFetched_0 is Err || msg is AuthInitialized
            && msg->AuthInitialized_0 is Err || msg == Msg::AuthInitialized(Ok(Identity::Undecodable))
            || msg is TokenObtained && msg->TokenObtained_0 is Err,
    ensures
        a.ctx == m.ctx,
        forall|i: int|
            0 <= i < c.len() ==> !starts_registration(#[trigger] c[i]) && !(c[i] is InitAuth),
{
}

/// Once the provider has answered, the address on display keeps its path
/// and loses its redirect parameters; where it held both, exactly that
/// address is written to the history, as the last command.
pub proof fn lemma_cleanup_keeps_address(m: Model, id: Identity, a: Model, c: Seq<Command>)
    requires
        next(m, Msg::AuthInitialized(Ok(id)), a, c),
    ensures
        a.url.path == m.url.path,
        a.url.base_len == m.url.base_len,
        a.url.query@ == cleaned_query(m.url.query@),
        a.page == m.page,
        has_redirect_params(m.url.query@) ==> c.len() >= 1 && match c.last() {
            Command::ReplaceHistory { url } => same_url(url, a.url),
            _ => false,
        },
        !has_redirect_params(m.url.query@) ==> forall|i: int|
            0 <= i < c.len() ==> !(#[trigger] c[i] is ReplaceHistory),
{
    if id is Claims {
        assert(c.drop_first().len() == c.len() - 1);
        if !has_redirect_params(m.url.query@) {
            assert forall|i: int| 0 <= i < c.len() implies !(#[trigger] c[i] is ReplaceHistory) by {
                assert(c[i] == Command::RequestToken);
            }
        }
    }
}

/// A successful logout signs the user out; a failed one changes nothing.
pub proof fn lemma_logout(m: Model, r: Result<(), String>, a: Model, c: Seq<Command>)
    requires
        next(m, Msg::LoggedOut(r), a, c),
    ensures
        r is Ok ==> a.ctx.user.is_none() && a.ctx.token == m.ctx.token,
        r is Err ==> a == m,
        c.len() == 0,
{
}

} // verus!
