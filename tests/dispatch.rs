use sma_web::page::{Page, Route, SettingsPage};
use sma_web::session::{AuthConfig, Identity, User};
use sma_web::shell::{init, update, Command, Model, Msg, SettingsMsg};
use sma_web::url::AppUrl;
use sma_web::view::{layout, Buttons, Layout};

fn url(path: &[&str], query: &[(&str, &str)]) -> AppUrl {
    AppUrl {
        path: path.iter().map(|s| s.to_string()).collect(),
        base_len: 0,
        query: query.iter().map(|(k, v)| (k.to_string(), v.to_string())).collect(),
    }
}

fn user() -> User {
    User {
        nickname: "nick".to_string(),
        name: "Nick Name".to_string(),
        picture: "https://example.com/p.png".to_string(),
        updated_at: "2024-01-01T00:00:00Z".to_string(),
        sub: "auth0|42".to_string(),
    }
}

fn config() -> AuthConfig {
    AuthConfig {
        domain: "example.eu.auth0.com".to_string(),
        client_id: "client".to_string(),
        audience: "https://api.example.com".to_string(),
    }
}

fn start() -> Model {
    init(url(&[], &[])).0
}

#[test]
fn startup_fetches_the_configuration() {
    let (m, cmds) = init(url(&["settings"], &[("a", "1")]));
    assert_eq!(cmds, vec![Command::FetchAuthConfig]);
    assert_eq!(m.ctx.user, None);
    assert_eq!(m.ctx.token, None);
    assert!(!m.menu_visible);
    assert_eq!(m.auth_config, None);
    assert_eq!(m.base_url, url(&[], &[("a", "1")]));
    assert_eq!(m.url, url(&["settings"], &[("a", "1")]));
    assert_eq!(m.page, Page::Settings(SettingsPage { url: url(&["settings"], &[("a", "1")]) }));
}

#[test]
fn url_change_reinitializes_the_page() {
    let mut m = start();
    let first = url(&["settings"], &[("v", "1")]);
    assert!(update(Msg::UrlChanged(first.clone()), &mut m).is_empty());
    assert_eq!(m.page, Page::Settings(SettingsPage { url: first }));
    let second = url(&["settings"], &[("v", "2")]);
    update(Msg::UrlChanged(second.clone()), &mut m);
    assert_eq!(m.page, Page::Settings(SettingsPage { url: second.clone() }));
    assert_eq!(m.url, second);
    update(Msg::UrlChanged(url(&[], &[])), &mut m);
    assert_eq!(m.page, Page::Home);
    update(Msg::UrlChanged(url(&["elsewhere"], &[])), &mut m);
    assert_eq!(m.page, Page::NotFound);
}

#[test]
fn toggle_twice_and_hide() {
    let mut m = start();
    assert!(update(Msg::ToggleMenu, &mut m).is_empty());
    assert!(m.menu_visible);
    assert!(update(Msg::ToggleMenu, &mut m).is_empty());
    assert!(!m.menu_visible);
    assert_eq!(update(Msg::HideMenu, &mut m), vec![Command::SkipRender]);
    assert!(!m.menu_visible);
    update(Msg::ToggleMenu, &mut m);
    assert!(update(Msg::HideMenu, &mut m).is_empty());
    assert!(!m.menu_visible);
}

#[test]
fn config_starts_one_initialization() {
    let mut m = start();
    let cmds = update(Msg::AuthConfigFetched(Ok(config())), &mut m);
    assert_eq!(
        cmds,
        vec![Command::InitAuth {
            domain: "example.eu.auth0.com".to_string(),
            client_id: "client".to_string(),
            audience: "https://api.example.com".to_string(),
        }]
    );
    assert_eq!(m.auth_config, Some(config()));
}

#[test]
fn anonymous_identity_starts_no_registration() {
    let mut m = start();
    let cmds = update(Msg::AuthInitialized(Ok(Identity::Anonymous)), &mut m);
    assert!(cmds.is_empty());
    assert_eq!(m.ctx.user, None);
}

#[test]
fn claims_sign_in_and_request_a_token() {
    let mut m = start();
    let cmds = update(Msg::AuthInitialized(Ok(Identity::Claims(user()))), &mut m);
    assert_eq!(cmds, vec![Command::RequestToken]);
    assert_eq!(m.ctx.user, Some(user()));
    let cmds = update(Msg::TokenObtained(Ok("tok".to_string())), &mut m);
    assert_eq!(cmds, vec![Command::Register { token: "tok".to_string() }]);
    assert_eq!(m.ctx.token, Some("tok".to_string()));
    assert!(update(Msg::Registered(Ok("done".to_string())), &mut m).is_empty());
    assert!(update(Msg::Registered(Err("500".to_string())), &mut m).is_empty());
}

#[test]
fn failed_config_fetch_stops_the_chain() {
    let mut m = start();
    let before = m.clone();
    assert!(update(Msg::AuthConfigFetched(Err("404".to_string())), &mut m).is_empty());
    assert_eq!(m, before);
    assert_eq!(m.ctx.user, None);
}

#[test]
fn failed_decode_or_init_stops_the_chain() {
    let mut m = start();
    let before = m.clone();
    assert!(update(Msg::AuthInitialized(Ok(Identity::Undecodable)), &mut m).is_empty());
    assert_eq!(m, before);
    assert!(update(Msg::AuthInitialized(Err("boom".to_string())), &mut m).is_empty());
    assert_eq!(m, before);
    assert!(update(Msg::TokenObtained(Err("no token".to_string())), &mut m).is_empty());
    assert_eq!(m, before);
}

#[test]
fn logout_clears_the_user_only_on_success() {
    let mut m = start();
    update(Msg::AuthInitialized(Ok(Identity::Claims(user()))), &mut m);
    update(Msg::TokenObtained(Ok("tok".to_string())), &mut m);
    assert_eq!(update(Msg::LogOut, &mut m), vec![Command::LogOut]);
    assert_eq!(m.ctx.user, Some(user()));
    assert!(update(Msg::LoggedOut(Err("blocked".to_string())), &mut m).is_empty());
    assert_eq!(m.ctx.user, Some(user()));
    assert!(update(Msg::LoggedOut(Ok(())), &mut m).is_empty());
    assert_eq!(m.ctx.user, None);
    assert_eq!(m.ctx.token, Some("tok".to_string()));
}

#[test]
fn sign_up_and_log_in_redirect() {
    let mut m = start();
    let before = m.clone();
    assert_eq!(update(Msg::SignUp, &mut m), vec![Command::RedirectToSignUp]);
    assert_eq!(update(Msg::LogIn, &mut m), vec![Command::RedirectToLogIn]);
    assert!(update(Msg::RedirectingToSignUp(Err("blocked".to_string())), &mut m).is_empty());
    assert!(update(Msg::RedirectingToLogIn(Ok(())), &mut m).is_empty());
    assert_eq!(m, before);
}

#[test]
fn settings_messages_reach_only_the_settings_page() {
    let mut m = start();
    let msg = SettingsMsg { event: "save".to_string() };
    assert!(update(Msg::SettingsMsg(msg.clone()), &mut m).is_empty());
    update(Msg::UrlChanged(url(&["settings"], &[])), &mut m);
    assert_eq!(update(Msg::SettingsMsg(msg.clone()), &mut m), vec![Command::ToSettings(msg)]);
}

#[test]
fn login_redirect_end_to_end() {
    let (mut m, cmds) = init(url(&["settings"], &[("code", "123"), ("state", "456")]));
    assert_eq!(cmds, vec![Command::FetchAuthConfig]);
    let cmds = update(Msg::AuthConfigFetched(Ok(config())), &mut m);
    assert_eq!(cmds.len(), 1);
    let cmds = update(Msg::AuthInitialized(Ok(Identity::Claims(user()))), &mut m);
    assert_eq!(
        cmds,
        vec![Command::RequestToken, Command::ReplaceHistory { url: url(&["settings"], &[]) }]
    );
    let cmds = update(Msg::TokenObtained(Ok("t-123".to_string())), &mut m);
    assert_eq!(cmds, vec![Command::Register { token: "t-123".to_string() }]);
    assert!(matches!(m.page, Page::Settings(_)));
    assert_eq!(m.ctx.user, Some(user()));
    assert_eq!(m.ctx.token, Some("t-123".to_string()));
    assert_eq!(m.url, url(&["settings"], &[]));
    assert!(m.base_url.query.is_empty());
}

#[test]
fn cleanup_keeps_other_params_of_the_address() {
    let (mut m, _) = init(url(&[], &[("code", "abc"), ("lang", "en"), ("state", "xyz")]));
    let cmds = update(Msg::AuthInitialized(Ok(Identity::Anonymous)), &mut m);
    assert_eq!(cmds, vec![Command::ReplaceHistory { url: url(&[], &[("lang", "en")]) }]);
    assert_eq!(m.url.query, vec![("lang".to_string(), "en".to_string())]);
    assert_eq!(m.base_url.query, vec![("lang".to_string(), "en".to_string())]);
    assert!(update(Msg::AuthInitialized(Ok(Identity::Anonymous)), &mut m).is_empty());
}

#[test]
fn layout_follows_the_session_menu_and_page() {
    let mut m = start();
    assert_eq!(
        layout(&m),
        Layout { menu_active: false, buttons: Buttons::Anonymous, content: Route::Home }
    );
    update(Msg::ToggleMenu, &mut m);
    update(Msg::UrlChanged(url(&["settings"], &[])), &mut m);
    update(Msg::AuthInitialized(Ok(Identity::Claims(user()))), &mut m);
    assert_eq!(
        layout(&m),
        Layout {
            menu_active: true,
            buttons: Buttons::LoggedIn { nickname: "nick".to_string() },
            content: Route::Settings,
        }
    );
    update(Msg::UrlChanged(url(&["x", "y"], &[])), &mut m);
    assert_eq!(layout(&m).content, Route::NotFound);
}

#[test]
fn cleanup_keeps_the_settings_path() {
    let (mut m, _) = init(url(&["settings"], &[("code", "1"), ("state", "2"), ("x", "y")]));
    let cmds = update(Msg::AuthInitialized(Ok(Identity::Anonymous)), &mut m);
    assert_eq!(cmds, vec![Command::ReplaceHistory { url: url(&["settings"], &[("x", "y")]) }]);
    assert_eq!(m.page, Page::Settings(SettingsPage { url: url(&["settings"], &[("code", "1"), ("state", "2"), ("x", "y")]) }));
}

#[test]
fn token_without_user_registers_but_is_not_kept() {
    let mut m = start();
    let before = m.clone();
    let cmds = update(Msg::TokenObtained(Ok("late".to_string())), &mut m);
    assert_eq!(cmds, vec![Command::Register { token: "late".to_string() }]);
    assert_eq!(m, before);
    assert_eq!(m.ctx.token, None);
}
