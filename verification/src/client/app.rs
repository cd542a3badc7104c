use vstd::prelude::*;

use crate::text::option_text;

use crate::client::api::JwtToken;
use crate::client::route::AppRoute;
use crate::client::token::TokenStore;
use crate::streak_logic::StreakState;
use crate::ws::{MemberState, ScanSessionState, WsRequest, WsResponse};

verus! {

/// What reaches the web client: route changes, the outcome of a token
/// fetch, websocket messages and status changes, and the member's clicks.
#[derive(Clone, Debug)]
pub enum AppEvent {
    /// The browser moved to a route (none when the URL names no page).
    Route(Option<AppRoute>),
    /// A token was fetched.
    Token(JwtToken),
    /// Fetching a token failed.
    TokenFetchError,
    /// The backend sent a message.
    WsReady(WsResponse),
    /// A websocket message could not be read.
    WsReadyError,
    /// The websocket opened.
    WsConnected,
    /// The websocket closed or failed.
    WsLost,
    /// The flash message has been shown long enough.
    ClearFlash,
    /// The member asks to skip the access node to scan.
    SkipCurrentScan,
}

/// What the web client does next, outside its own state.
#[derive(Clone, Debug)]
pub enum AppAction {
    /// Fetch a fresh token from the API.
    FetchToken,
    /// Keep this token (or none) in local storage.
    StoreToken(Option<String>),
    /// Navigate to a route.
    ChangeRoute(AppRoute),
    /// (Re)connect the websocket with this token.
    WsConnect(String),
    /// Send a request over the open websocket.
    WsSend(WsRequest),
}

/// An action with its texts taken as character sequences.
pub enum ActionView {
    FetchToken,
    StoreToken(Option<Seq<char>>),
    ChangeRoute(AppRoute),
    WsConnect(Seq<char>),
    SkipScan(Seq<char>),
}

/// What the web client shows, with its texts taken as character sequences.
pub struct AppView {
    pub current_route: Option<AppRoute>,
    pub token: Option<Seq<char>>,
    pub ws_open: bool,
    pub flash_message: Option<Seq<char>>,
    pub member_state: Option<MemberState>,
    pub scan_session_state: Option<ScanSessionState>,
    pub streak_state: Option<StreakState>,
}

/// The page that the web client renders.
#[derive(Clone, Copy, Debug, PartialEq, Eq, Structural)]
pub enum Page {
    Login,
    Index,
    DashBoard,
    Scan,
    ScanComplete,
    NotImplemented,
    NoChild,
}

/// The state of the web client.
#[derive(Clone, Debug)]
pub struct App {
    pub current_route: Option<AppRoute>,
    pub tokens: TokenStore,
    pub ws_open: bool,
    pub flash_message: Option<String>,
    pub member_state: Option<MemberState>,
    pub scan_session_state: Option<ScanSessionState>,
    pub streak_state: Option<StreakState>,
}

impl AppAction {
    pub open spec fn view(self) -> ActionView {
        match self {
            AppAction::FetchToken => ActionView::FetchToken,
            AppAction::StoreToken(t) => ActionView::StoreToken(option_text(t)),
            AppAction::ChangeRoute(r) => ActionView::ChangeRoute(r),
            AppAction::WsConnect(t) => ActionView::WsConnect(t@),
            AppAction::WsSend(WsRequest::SkipCurrentScan(label)) => ActionView::SkipScan(label@),
        }
    }
}

pub open spec fn actions_view(actions: Seq<AppAction>) -> Seq<ActionView> {
    actions.map_values(|a: AppAction| a.view())
}

/// The flash messages of the web client.
pub const WELCOME_BACK: &'static str = "Welcome back visitor";

pub const TOKEN_EXPIRED: &'static str = "Token expired, logging out";

pub const DOUBLE_CONNECT: &'static str = "Registered a double connect!";

pub const SKIP_NOT_POSSIBLE: &'static str = "Not possible to skip scan";

pub const NOT_CONNECTED: &'static str = "Not connected, try again later";

/// The label of the access node that the member is asked to scan next.
pub open spec fn next_anode_label(s: Option<ScanSessionState>) -> Option<Seq<char>> {
    match s {
        Some(state) => match state.next_anode {
            Some(anode) => Some(anode.label@),
            None => None,
        },
        None => None,
    }
}

/// Takes on `token`: keeps it and reconnects the websocket with it.
pub open spec fn with_token(v: AppView, token: Seq<char>) -> (AppView, Seq<ActionView>) {
    (
        AppView { token: Some(token), ws_open: true, ..v },
        seq![ActionView::StoreToken(Some(token)), ActionView::WsConnect(token)],
    )
}

/// What a message of the backend does to the web client.
pub open spec fn spec_on_response(v: AppView, response: WsResponse) -> (AppView, Seq<ActionView>) {
    match response {
        WsResponse::BadToken(t) => {
            let (w, actions) = with_token(v, t@);
            (
                AppView { flash_message: Some(TOKEN_EXPIRED@), ..w },
                actions.push(ActionView::ChangeRoute(AppRoute::Index)),
            )
        },
        WsResponse::DoubleConnection => (
            AppView { flash_message: Some(DOUBLE_CONNECT@), ..v },
            Seq::empty(),
        ),
        WsResponse::Attribution(t) => {
            let (w, actions) = with_token(v, t@);
            (w, actions.push(ActionView::ChangeRoute(AppRoute::DashBoard)))
        },
        WsResponse::MemberState(m) => (AppView { member_state: Some(m), ..v }, Seq::empty()),
        WsResponse::StreakState(s) => (AppView { streak_state: Some(s), ..v }, Seq::empty()),
        WsResponse::ScanSessionState(s) => (
            AppView { scan_session_state: Some(s), ..v },
            Seq::empty(),
        ),
        _ => (v, Seq::empty()),
    }
}

/// What an event does to the web client.
pub open spec fn spec_update(v: AppView, event: AppEvent) -> (AppView, Seq<ActionView>) {
    match event {
        AppEvent::Route(r) => (AppView { current_route: r, ..v }, Seq::empty()),
        AppEvent::Token(jwt) => with_token(v, jwt.token@),
        AppEvent::WsReady(response) => spec_on_response(v, response),
        AppEvent::WsLost => (
            AppView { ws_open: true, ..v },
            seq![ActionView::WsConnect(v.token->0)],
        ),
        AppEvent::ClearFlash => (AppView { flash_message: None, ..v }, Seq::empty()),
        AppEvent::SkipCurrentScan => match next_anode_label(v.scan_session_state) {
            Some(label) => if v.ws_open {
                (v, seq![ActionView::SkipScan(label)])
            } else {
                (AppView { flash_message: Some(NOT_CONNECTED@), ..v }, Seq::empty())
            },
            None => (AppView { flash_message: Some(SKIP_NOT_POSSIBLE@), ..v }, Seq::empty()),
        },
        _ => (v, Seq::empty()),
    }
}

/// What the first rendering of the web client does, given whether its token
/// authenticates a member.
pub open spec fn spec_first_render(v: AppView, authenticated: bool) -> (AppView, Seq<ActionView>) {
    match v.token {
        None => (v, seq![ActionView::FetchToken, ActionView::ChangeRoute(AppRoute::Index)]),
        Some(t) => {
            let (w, routed) = if authenticated {
                (
                    AppView { flash_message: Some(WELCOME_BACK@), ..v },
                    if v.current_route == Some(AppRoute::Scans) {
                        Seq::<ActionView>::empty()
                    } else {
                        seq![ActionView::ChangeRoute(AppRoute::DashBoard)]
                    },
                )
            } else {
                (v, seq![ActionView::ChangeRoute(AppRoute::Index)])
            };
            (AppView { ws_open: true, ..w }, routed.push(ActionView::WsConnect(t)))
        },
    }
}

/// What an event does to the first version of the web client, which knows
/// no flash messages and no skipping: a refused token is only replaced.
pub open spec fn spec_root_update(v: AppView, event: AppEvent) -> (AppView, Seq<ActionView>) {
    match event {
        AppEvent::WsReady(WsResponse::BadToken(t)) => with_token(v, t@),
        AppEvent::WsReady(WsResponse::DoubleConnection) => (v, Seq::empty()),
        AppEvent::ClearFlash => (v, Seq::empty()),
        AppEvent::SkipCurrentScan => (v, Seq::empty()),
        _ => spec_update(v, event),
    }
}

/// What the first rendering of the first version of the web client does:
/// the same as the current one, without welcoming the member back.
pub open spec fn spec_root_first_render(v: AppView, authenticated: bool) -> (AppView, Seq<ActionView>) {
    let (w, actions) = spec_first_render(v, authenticated);
    (AppView { flash_message: v.flash_message, ..w }, actions)
}

impl App {
    pub open spec fn view(&self) -> AppView {
        AppView {
            current_route: self.current_route,
            token: option_text(self.tokens.token),
            ws_open: self.ws_open,
            flash_message: option_text(self.flash_message),
            member_state: self.member_state,
            scan_session_state: self.scan_session_state,
            streak_state: self.streak_state,
        }
    }

    /// The web client at start-up, on `route` with the token restored from
    /// local storage.
    pub fn new(route: Option<AppRoute>, stored_token: Option<String>) -> (app: App)
        ensures
            app.view() == (AppView {
                current_route: route,
                token: option_text(stored_token),
                ws_open: false,
                flash_message: None,
                member_state: None,
                scan_session_state: None,
                streak_state: None,
            }),
    {
        App {
            current_route: route,
            tokens: TokenStore::new(stored_token),
            ws_open: false,
            flash_message: None,
            member_state: None,
            scan_session_state: None,
            streak_state: None,
        }
    }

    fn flash(&mut self, msg: &str)
        ensures
            final(self).view() == (AppView { flash_message: Some(msg@), ..old(self).view() }),
    {
        self.flash_message = Some(String::from_str(msg));
    }

    /// Keeps `token` and reconnects with it.
    fn take_token(&mut self, token: String, actions: &mut Vec<AppAction>)
        ensures
            final(self).view() == with_token(old(self).view(), token@).0,
            actions_view(final(actions)@) == actions_view(old(actions)@) + with_token(
                old(self).view(),
                token@,
            ).1,
    {
        self.tokens.set_token(Some(token.clone()));
        actions.push(AppAction::StoreToken(Some(token.clone())));
        actions.push(AppAction::WsConnect(token));
        self.ws_open = true;
        proof {
            assert(actions_view(actions@) =~= actions_view(old(actions)@) + with_token(
                old(self).view(),
                token@,
            ).1);
        }
    }

    /// Sends a request if the websocket is open, and tells the member
    /// otherwise.
    fn ws_send(&mut self, request: WsRequest, actions: &mut Vec<AppAction>)
        ensures
            old(self).ws_open ==> final(self).view() == old(self).view() && final(actions)@
                == old(actions)@.push(AppAction::WsSend(request)),
            !old(self).ws_open ==> final(self).view() == (AppView {
                flash_message: Some(NOT_CONNECTED@),
                ..old(self).view()
            }) && final(actions)@ == old(actions)@,
    {
        if self.ws_open {
            actions.push(AppAction::WsSend(request));
        } else {
            self.flash(NOT_CONNECTED);
        }
    }

    /// Handles a message of the backend.
    fn on_response(&mut self, response: WsResponse) -> (actions: Vec<AppAction>)
        ensures
            (final(self).view(), actions_view(actions@)) == spec_on_response(
                old(self).view(),
                response,
            ),
    {
        let mut actions: Vec<AppAction> = Vec::new();
        match response {
            WsResponse::Connected => {},
            WsResponse::BadToken(token) => {
                // the token expired or its signature is wrong: take the fresh
                // one, reconnect and leave the member area
                self.take_token(token, &mut actions);
                self.flash(TOKEN_EXPIRED);
                actions.push(AppAction::ChangeRoute(AppRoute::Index));
            },
            WsResponse::DoubleConnection => {
                self.flash(DOUBLE_CONNECT);
            },
            WsResponse::Attribution(token) => {
                // the login scan succeeded: reconnect with the authenticated
                // token so the backend ties the scans to the member
                self.take_token(token, &mut actions);
                actions.push(AppAction::ChangeRoute(AppRoute::DashBoard));
            },
            WsResponse::MemberState(member_state) => {
                self.member_state = Some(member_state);
            },
            WsResponse::StreakState(streak_state) => {
                self.streak_state = Some(streak_state);
            },
            WsResponse::ScanSessionState(scan_session_state) => {
                self.scan_session_state = Some(scan_session_state);
            },
            WsResponse::Error(_) => {},
        }
        proof {
            assert(actions_view(actions@) =~= spec_on_response(old(self).view(), response).1);
        }
        actions
    }

    /// Handles an event and returns what to do next. A lost websocket is
    /// reconnected with the kept token, so it can only be lost once there is
    /// one.
    pub fn update(&mut self, event: AppEvent) -> (actions: Vec<AppAction>)
        requires
            event is WsLost ==> old(self).tokens.token is Some,
        ensures
            (final(self).view(), actions_view(actions@)) == spec_update(old(self).view(), event),
    {
        let mut actions: Vec<AppAction> = Vec::new();
        match event {
            AppEvent::ClearFlash => {
                self.flash_message = None;
            },
            AppEvent::SkipCurrentScan => {
                let label = match &self.scan_session_state {
                    Some(state) => match &state.next_anode {
                        Some(anode) => Some(anode.label.clone()),
                        None => None,
                    },
                    None => None,
                };
                match label {
                    Some(l) => self.ws_send(WsRequest::SkipCurrentScan(l), &mut actions),
                    None => self.flash(SKIP_NOT_POSSIBLE),
                }
            },
            AppEvent::Route(route) => {
                self.current_route = route;
            },
            AppEvent::Token(jwt_token) => {
                self.take_token(jwt_token.token, &mut actions);
            },
            AppEvent::TokenFetchError => {},
            AppEvent::WsReady(response) => {
                actions = self.on_response(response);
            },
            AppEvent::WsReadyError => {},
            AppEvent::WsConnected => {},
            AppEvent::WsLost => {
                let token = match self.tokens.get_token() {
                    Some(t) => t,
                    None => String::new(),
                };
                actions.push(AppAction::WsConnect(token));
                self.ws_open = true;
            },
        }
        proof {
            assert(actions_view(actions@) =~= spec_update(old(self).view(), event).1);
        }
        actions
    }

    /// The first rendering: without a token, fetch one and show the index;
    /// with one, show the member area to an authenticated member (welcoming
    /// them back) and the index otherwise, and connect the websocket.
    pub fn first_render(&mut self, authenticated: bool) -> (actions: Vec<AppAction>)
        ensures
            (final(self).view(), actions_view(actions@)) == spec_first_render(
                old(self).view(),
                authenticated,
            ),
    {
        let mut actions: Vec<AppAction> = Vec::new();
        match self.tokens.get_token() {
            None => {
                actions.push(AppAction::FetchToken);
                actions.push(AppAction::ChangeRoute(AppRoute::Index));
            },
            Some(token) => {
                if authenticated {
                    if self.current_route != Some(AppRoute::Scans) {
                        actions.push(AppAction::ChangeRoute(AppRoute::DashBoard));
                    }
                    self.flash(WELCOME_BACK);
                } else {
                    actions.push(AppAction::ChangeRoute(AppRoute::Index));
                }
                actions.push(AppAction::WsConnect(token));
                self.ws_open = true;
            },
        }
        proof {
            assert(actions_view(actions@) =~= spec_first_render(old(self).view(), authenticated).1);
        }
        actions
    }

    /// Handles an event the way the first version of the web client does.
    pub fn update_root(&mut self, event: AppEvent) -> (actions: Vec<AppAction>)
        requires
            event is WsLost ==> old(self).tokens.token is Some,
        ensures
            (final(self).view(), actions_view(actions@)) == spec_root_update(
                old(self).view(),
                event,
            ),
    {
        match event {
            AppEvent::WsReady(WsResponse::BadToken(token)) => {
                let mut actions: Vec<AppAction> = Vec::new();
                self.take_token(token, &mut actions);
                actions
            },
            AppEvent::WsReady(WsResponse::DoubleConnection) => Vec::new(),
            AppEvent::ClearFlash => Vec::new(),
            AppEvent::SkipCurrentScan => Vec::new(),
            other => self.update(other),
        }
    }

    /// The first rendering as the first version of the web client does it.
    pub fn first_render_root(&mut self, authenticated: bool) -> (actions: Vec<AppAction>)
        ensures
            (final(self).view(), actions_view(actions@)) == spec_root_first_render(
                old(self).view(),
                authenticated,
            ),
    {
        let flash_message = self.flash_message.clone();
        let actions = self.first_render(authenticated);
        self.flash_message = flash_message;
        actions
    }

    /// The page for the current route: the scan page while an access node is
    /// left to scan, and the completion page after.
    pub fn page(&self) -> (page: Page)
        ensures
            page == (match self.current_route {
                None => Page::NoChild,
                Some(AppRoute::Login) => Page::Login,
                Some(AppRoute::Index) => Page::Index,
                Some(AppRoute::DashBoard) => Page::DashBoard,
                Some(AppRoute::Scans) => if next_anode_label(self.scan_session_state) is Some {
                    Page::Scan
                } else {
                    Page::ScanComplete
                },
                Some(AppRoute::CashOuts) => Page::NotImplemented,
            }),
    {
        match self.current_route {
            None => Page::NoChild,
            Some(AppRoute::Login) => Page::Login,
            Some(AppRoute::Index) => Page::Index,
            Some(AppRoute::DashBoard) => Page::DashBoard,
            Some(AppRoute::Scans) => {
                let has_next = match &self.scan_session_state {
                    Some(s) => s.next_anode.is_some(),
                    None => false,
                };
                if has_next {
                    Page::Scan
                } else {
                    Page::ScanComplete
                }
            },
            Some(AppRoute::CashOuts) => Page::NotImplemented,
        }
    }
}

/// A fetched token is kept and the websocket connects with it: after
/// `Token(jwt)` the client holds `jwt.token` with its socket open, and the
/// actions store the token and then connect with it; nothing else changes.
/// The first version of the client does the same.
pub proof fn law_fetched_token_connects(v: AppView, jwt: JwtToken)
    ensures
        spec_update(v, AppEvent::Token(jwt)).0 == (AppView { token: Some(jwt.token@), ws_open: true, ..v }),
        spec_update(v, AppEvent::Token(jwt)).1 =~= seq![
            ActionView::StoreToken(Some(jwt.token@)),
            ActionView::WsConnect(jwt.token@),
        ],
        spec_root_update(v, AppEvent::Token(jwt)) == spec_update(v, AppEvent::Token(jwt)),
{
}

/// A token that the backend hands over replaces the kept one and the
/// websocket reconnects with it: a refused token sends the visitor to the
/// index with a notice (the first version only reconnects), and a login
/// attribution sends the member to the dashboard.
pub proof fn law_handed_token_reconnects(v: AppView, t: String)
    ensures
        spec_update(v, AppEvent::WsReady(WsResponse::BadToken(t))).0 == (AppView {
            token: Some(t@),
            ws_open: true,
            flash_message: Some(TOKEN_EXPIRED@),
            ..v
        }),
        spec_update(v, AppEvent::WsReady(WsResponse::BadToken(t))).1 =~= seq![
            ActionView::StoreToken(Some(t@)),
            ActionView::WsConnect(t@),
            ActionView::ChangeRoute(AppRoute::Index),
        ],
        spec_root_update(v, AppEvent::WsReady(WsResponse::BadToken(t))).0 == (AppView {
            token: Some(t@),
            ws_open: true,
            ..v
        }),
        spec_root_update(v, AppEvent::WsReady(WsResponse::BadToken(t))).1 =~= seq![
            ActionView::StoreToken(Some(t@)),
            ActionView::WsConnect(t@),
        ],
        spec_update(v, AppEvent::WsReady(WsResponse::Attribution(t))).0 == (AppView {
            token: Some(t@),
            ws_open: true,
            ..v
        }),
        spec_update(v, AppEvent::WsReady(WsResponse::Attribution(t))).1 =~= seq![
            ActionView::StoreToken(Some(t@)),
            ActionView::WsConnect(t@),
            ActionView::ChangeRoute(AppRoute::DashBoard),
        ],
{
}

/// A lost websocket reconnects with the kept token and changes nothing else.
pub proof fn law_lost_socket_reconnects(v: AppView, t: Seq<char>)
    requires
        v.token == Some(t),
    ensures
        spec_update(v, AppEvent::WsLost).0 == (AppView { ws_open: true, ..v }),
        spec_update(v, AppEvent::WsLost).1 =~= seq![ActionView::WsConnect(t)],
{
}

/// The states that the backend sends are kept as they come, and nothing
/// else changes.
pub proof fn law_states_are_kept(
    v: AppView,
    m: MemberState,
    s: StreakState,
    ss: ScanSessionState,
)
    ensures
        spec_update(v, AppEvent::WsReady(WsResponse::MemberState(m))) == (
            AppView { member_state: Some(m), ..v },
            Seq::<ActionView>::empty(),
        ),
        spec_update(v, AppEvent::WsReady(WsResponse::StreakState(s))) == (
            AppView { streak_state: Some(s), ..v },
            Seq::<ActionView>::empty(),
        ),
        spec_update(v, AppEvent::WsReady(WsResponse::ScanSessionState(ss))) == (
            AppView { scan_session_state: Some(ss), ..v },
            Seq::<ActionView>::empty(),
        ),
{
}

/// At start-up a stored token always connects the websocket, whether or not
/// it authenticates a member: the socket is open, the token is kept, and the
/// last action connects with it; an authenticated member is welcomed back
/// (by the current version) and sent to the dashboard unless already on the
/// scans, anyone else goes to the index. Without a stored token the client
/// fetches one and shows the index, and changes nothing yet.
pub proof fn law_first_render_connects_stored_token(v: AppView, authenticated: bool)
    ensures
        v.token matches Some(t) ==> {
            let (w, actions) = spec_first_render(v, authenticated);
            let (rw, ractions) = spec_root_first_render(v, authenticated);
            &&& w.ws_open && w.token == Some(t)
            &&& actions.len() >= 1 && actions.last() == ActionView::WsConnect(t)
            &&& rw.ws_open && rw.token == Some(t) && ractions == actions
            &&& rw.flash_message == v.flash_message
            &&& authenticated ==> w.flash_message == Some(WELCOME_BACK@)
            &&& authenticated && v.current_route != Some(AppRoute::Scans) ==> actions
                =~= seq![ActionView::ChangeRoute(AppRoute::DashBoard), ActionView::WsConnect(t)]
            &&& authenticated && v.current_route == Some(AppRoute::Scans) ==> actions
                =~= seq![ActionView::WsConnect(t)]
            &&& !authenticated ==> w == (AppView { ws_open: true, ..v }) && actions =~= seq![
                ActionView::ChangeRoute(AppRoute::Index),
                ActionView::WsConnect(t),
            ]
        },
        v.token is None ==> spec_first_render(v, authenticated) == (
            v,
            seq![ActionView::FetchToken, ActionView::ChangeRoute(AppRoute::Index)],
        ),
{
}

} // verus!
