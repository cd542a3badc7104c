use streaker::client::api::{build_api_url, token_fetch_result, token_fetch_url, ApiError, JwtToken};
use streaker::client::app::{App, AppAction, AppEvent, Page};
use streaker::client::clock::TimeRemaining;
use streaker::client::flash::FlashState;
use streaker::client::menu::menu_item_class;
use streaker::client::qrcode::{generate, generate_url, try_generate_url};
use streaker::client::route::AppRoute;
use streaker::client::token::{if_auth, TokenStore};
use streaker::instant::UtcInstant;
use streaker::ws::{AccessNode, ScanSessionState, WsRequest, WsResponse};

fn tok(s: &str) -> JwtToken {
    JwtToken { token: s.to_string() }
}

#[test]
fn api_urls() {
    assert_eq!(build_api_url("/api/v1/token/fetch"), "http://localhost:8080/api/v1/token/fetch");
    assert_eq!(token_fetch_url().unwrap(), "http://localhost:8080/api/v1/token/fetch");
}

#[test]
fn token_fetch_results() {
    assert_eq!(token_fetch_result(true, 200, Some(tok("t"))).unwrap().token, "t");
    assert_eq!(token_fetch_result(true, 204, None).unwrap_err(), ApiError::DeserializeError);
    assert_eq!(token_fetch_result(true, 401, None).unwrap_err(), ApiError::Unauthorized);
    assert_eq!(token_fetch_result(true, 403, None).unwrap_err(), ApiError::Forbidden);
    assert_eq!(token_fetch_result(true, 404, None).unwrap_err(), ApiError::NotFound);
    assert_eq!(token_fetch_result(true, 500, None).unwrap_err(), ApiError::InternalServerError);
    assert_eq!(token_fetch_result(true, 502, None).unwrap_err(), ApiError::RequestError);
    assert_eq!(token_fetch_result(false, 200, Some(tok("t"))).unwrap_err(), ApiError::RequestError);
}

#[test]
fn token_store() {
    let mut store = TokenStore::new(None);
    assert!(!store.have_token());
    store.set_token(Some("abc".to_string()));
    assert!(store.have_token());
    assert_eq!(store.get_token(), Some("abc".to_string()));
    store.set_token(None);
    assert_eq!(store.get_token(), None);
}

#[test]
fn if_auth_picks() {
    assert_eq!(if_auth(true, "auth", ""), "auth");
    assert_eq!(if_auth(false, "auth", ""), "");
}

fn session_with_next(label: Option<&str>) -> ScanSessionState {
    ScanSessionState {
        uuid: 0,
        count: 0,
        skipped: 0,
        total: 31,
        next_anode: label.map(|l| AccessNode {
            label: l.to_string(),
            url: "https://access-node.opesgames.com".to_string(),
            weight_bits: 0,
            description: None,
        }),
        begin: UtcInstant { secs: 0, nanos: 0 },
    }
}

#[test]
fn first_render_without_token_fetches_one() {
    let mut app = App::new(Some(AppRoute::DashBoard), None);
    let actions = app.first_render(false);
    assert!(matches!(actions[0], AppAction::FetchToken));
    assert!(matches!(actions[1], AppAction::ChangeRoute(AppRoute::Index)));
    assert_eq!(actions.len(), 2);
    assert!(!app.ws_open);
}

#[test]
fn first_render_with_authenticated_token() {
    let mut app = App::new(Some(AppRoute::Index), Some("t".to_string()));
    let actions = app.first_render(true);
    assert!(matches!(actions[0], AppAction::ChangeRoute(AppRoute::DashBoard)));
    assert!(matches!(&actions[1], AppAction::WsConnect(t) if t == "t"));
    assert_eq!(app.flash_message.as_deref(), Some("Welcome back visitor"));
    assert!(app.ws_open);

    let mut app = App::new(Some(AppRoute::Scans), Some("t".to_string()));
    let actions = app.first_render(true);
    assert_eq!(actions.len(), 1);

    let mut app = App::new(Some(AppRoute::Scans), Some("t".to_string()));
    let actions = app.first_render_root(true);
    assert_eq!(actions.len(), 1);
    assert_eq!(app.flash_message, None);
}

#[test]
fn attribution_logs_in() {
    let mut app = App::new(Some(AppRoute::Login), Some("old".to_string()));
    let actions = app.update(AppEvent::WsReady(WsResponse::Attribution("new".to_string())));
    assert!(matches!(&actions[0], AppAction::StoreToken(Some(t)) if t == "new"));
    assert!(matches!(&actions[1], AppAction::WsConnect(t) if t == "new"));
    assert!(matches!(actions[2], AppAction::ChangeRoute(AppRoute::DashBoard)));
    assert_eq!(app.tokens.get_token(), Some("new".to_string()));
}

#[test]
fn bad_token_logs_out() {
    let mut app = App::new(Some(AppRoute::DashBoard), Some("old".to_string()));
    let actions = app.update(AppEvent::WsReady(WsResponse::BadToken("fresh".to_string())));
    assert_eq!(actions.len(), 3);
    assert!(matches!(actions[2], AppAction::ChangeRoute(AppRoute::Index)));
    assert_eq!(app.flash_message.as_deref(), Some("Token expired, logging out"));

    let mut root = App::new(Some(AppRoute::DashBoard), Some("old".to_string()));
    let actions = root.update_root(AppEvent::WsReady(WsResponse::BadToken("fresh".to_string())));
    assert_eq!(actions.len(), 2);
    assert_eq!(root.flash_message, None);
    assert_eq!(root.tokens.get_token(), Some("fresh".to_string()));
}

#[test]
fn skip_scan_needs_an_access_node_and_a_socket() {
    let mut app = App::new(Some(AppRoute::Scans), Some("t".to_string()));
    let actions = app.update(AppEvent::SkipCurrentScan);
    assert!(actions.is_empty());
    assert_eq!(app.flash_message.as_deref(), Some("Not possible to skip scan"));

    app.update(AppEvent::WsReady(WsResponse::ScanSessionState(session_with_next(Some("opesgames")))));
    assert_eq!(app.page(), Page::Scan);
    let actions = app.update(AppEvent::SkipCurrentScan);
    assert!(actions.is_empty());
    assert_eq!(app.flash_message.as_deref(), Some("Not connected, try again later"));

    app.update(AppEvent::WsLost);
    let actions = app.update(AppEvent::SkipCurrentScan);
    assert!(matches!(&actions[0], AppAction::WsSend(WsRequest::SkipCurrentScan(l)) if l == "opesgames"));

    app.update(AppEvent::ClearFlash);
    assert_eq!(app.flash_message, None);
}

#[test]
fn pages_follow_the_route() {
    let mut app = App::new(None, None);
    assert_eq!(app.page(), Page::NoChild);
    app.update(AppEvent::Route(Some(AppRoute::Scans)));
    assert_eq!(app.page(), Page::ScanComplete);
    app.update(AppEvent::WsReady(WsResponse::ScanSessionState(session_with_next(None))));
    assert_eq!(app.page(), Page::ScanComplete);
    app.update(AppEvent::Route(Some(AppRoute::CashOuts)));
    assert_eq!(app.page(), Page::NotImplemented);
}

#[test]
fn clock_counts_down() {
    let now = UtcInstant { secs: 1_000, nanos: 0 };
    let target = UtcInstant { secs: 1_000 + 2 * 3600 + 5 * 60 + 7, nanos: 0 };
    assert_eq!(TimeRemaining::until(&target, &now), TimeRemaining { hours: 2, minutes: 5, seconds: 7 });
    assert_eq!(
        TimeRemaining::until(&now, &target),
        TimeRemaining { hours: -2, minutes: -5, seconds: -7 }
    );
}

#[test]
fn flash_expires_after_its_duration() {
    let mut flash = FlashState::new();
    let t0 = UtcInstant { secs: 100, nanos: 0 };
    assert!(flash.change(Some("hi".to_string()), t0));
    assert!(!flash.change(Some("hi".to_string()), t0));
    assert!(!flash.tick(&UtcInstant { secs: 103, nanos: 0 }, 3_000_000_000));
    assert!(flash.tick(&UtcInstant { secs: 103, nanos: 1 }, 3_000_000_000));
    assert_eq!(flash.message, None);
    assert!(!flash.tick(&UtcInstant { secs: 200, nanos: 0 }, 3_000_000_000));
}

#[test]
fn menu_marks_current_route() {
    assert_eq!(menu_item_class("scans", AppRoute::Scans, Some(AppRoute::Scans)), "scans current");
    assert_eq!(menu_item_class("scans", AppRoute::Scans, Some(AppRoute::DashBoard)), "scans");
    assert_eq!(menu_item_class("scans", AppRoute::Scans, None), "scans");
}

#[test]
fn check_in_links() {
    let link = generate_url("Streaker%20Scan%20opesgames", "https://access-node.opesgames.com", "scan:abc");
    assert_eq!(
        link,
        "https://mobile.opes.pe/opesapp/check-in?name=Streaker%2520Scan%2520opesgames&url=https%3A%2F%2Faccess-node.opesgames.com%2F&source=scan%3Aabc"
    );
    assert_eq!(try_generate_url("n", "not a url", "s"), None);
}

#[test]
fn qr_codes_are_svg() {
    let svg = generate("https://mobile.opes.pe/opesapp/check-in");
    assert!(svg.contains("<svg"));
}
