//! Decisions of the controller's connection lifecycle: the observable
//! connection state, which site a configuration names, and how a failed
//! site lookup is reported.
use vstd::prelude::*;

use crate::error::{CoreError, ErrorView};
use crate::model::entity::{canonical_uuid, uuid_text};
use crate::text::{opt_view, owned, push_str, str_eq};

verus! {

/// Connection state observable by consumers.
#[derive(Debug, Clone, PartialEq, Eq)]
pub enum ConnectionState {
    Disconnected,
    Connecting,
    Connected,
    Reconnecting { attempt: u32 },
    Failed,
}

/// Position of the first site whose internal reference is `name`.
pub open spec fn site_index(sites: Seq<(String, String)>, name: Seq<char>) -> Option<int>
    decreases sites.len(),
{
    if sites.len() == 0 {
        None
    } else if sites[0].0@ == name {
        Some(0)
    } else {
        match site_index(sites.drop_first(), name) {
            Some(i) => Some(i + 1),
            None => None,
        }
    }
}

/// The id of the site whose internal reference is `site_name`, among
/// `(internal reference, id)` pairs; the first such site wins, and a name no
/// site carries is `SiteNotFound`.
pub fn find_site_id(sites: &Vec<(String, String)>, site_name: &str) -> (res: Result<String, CoreError>)
    ensures
        match site_index(sites@, site_name@) {
            Some(i) => res matches Ok(id) && 0 <= i < sites@.len() && id@ == sites@[i].1@,
            None => res matches Err(e) && e@ == ErrorView::SiteNotFound(site_name@),
        },
{
    let mut i: usize = 0;
    assert(sites@.skip(0) =~= sites@);
    while i < sites.len()
        invariant
            i <= sites@.len(),
            site_index(sites@, site_name@) == match site_index(sites@.skip(i as int), site_name@) {
                Some(j) => Some(j + i),
                None => None,
            },
        decreases sites.len() - i,
    {
        let ghost rest = sites@.skip(i as int);
        assert(rest.drop_first() =~= sites@.skip(i + 1));
        assert(rest[0] == sites@[i as int]);
        if str_eq(sites[i].0.as_str(), site_name) {
            return Ok(sites[i].1.clone());
        }
        i = i + 1;
    }
    Err(CoreError::SiteNotFound { name: owned(site_name) })
}

/// The UUID a configured site names directly, when its text is one.
pub fn site_uuid(site_name: &str) -> (res: Option<String>)
    ensures
        opt_view(res) == uuid_text(site_name@),
{
    canonical_uuid(site_name)
}

/// The site of a cloud connection when the configuration names it by UUID:
/// the configured site when it is one, else the host id when that is one;
/// `None` sends the caller to look the site up by name.
pub fn cloud_site_id(site: &str, host_id: &str) -> (res: Option<String>)
    ensures
        opt_view(res) == match uuid_text(site@) {
            Some(u) => Some(u),
            None => uuid_text(host_id@),
        },
{
    match canonical_uuid(site) {
        Some(u) => Some(u),
        None => canonical_uuid(host_id),
    }
}

/// The hint that replaces a 404 during site resolution.
pub open spec fn integration_api_missing() -> ErrorView {
    ErrorView::Unsupported(
        "API-key authentication"@,
        "a controller with the Integration API (Settings > Integrations).\nFor older UniFi Network Application installs, use --username/--password instead"@,
    )
}

/// A failed site lookup over API-key authentication: a 404 becomes
/// [`integration_api_missing`], any other error stays.
pub open spec fn site_resolution_view(e: ErrorView) -> ErrorView {
    match e {
        ErrorView::Api(_, Some(status)) if status == 404 => integration_api_missing(),
        _ => e,
    }
}

/// The error of a failed site lookup over API-key authentication: a 404 from
/// the controller means it lacks the Integration API, reported as
/// unsupported with a hint; any other error passes unchanged.
pub fn site_resolution_error(e: CoreError) -> (res: CoreError)
    ensures
        res@ == site_resolution_view(e@),
{
    match e {
        CoreError::Api { message, status: Some(404) } => CoreError::Unsupported {
            operation: owned("API-key authentication"),
            required: owned(
                "a controller with the Integration API (Settings > Integrations).\nFor older UniFi Network Application installs, use --username/--password instead",
            ),
        },
        other => other,
    }
}

// ── connecting ─────────────────────────────────────────────────────

/// How a connection authenticates.
#[derive(Debug, Clone, Copy, PartialEq, Eq, Structural)]
pub enum AuthKind {
    /// Integration API key; a Session client shares the key.
    ApiKey,
    /// Session login with username and password.
    Credentials,
    /// Integration API key plus a Session login that may fail.
    Hybrid,
    /// Integration API through the cloud connector; no Session API.
    Cloud,
}

/// The step of a connection attempt whose outcome is awaited.
#[derive(Debug, Clone, Copy, PartialEq, Eq, Structural)]
pub enum ConnectState {
    Idle,
    DetectingPlatform,
    BuildingIntegration,
    ResolvingSite,
    BuildingSession,
    LoggingIn,
    Refreshing,
    Connected,
    Failed,
}

/// The outcome of the step the caller performed.
#[derive(Debug, Clone, PartialEq, Eq)]
pub enum ConnectEvent {
    /// The caller begins connecting.
    Start,
    Succeeded,
    /// The step failed with `error`; `text` is how the failure reads.
    Failed { error: CoreError, text: String },
}

/// The mathematical form of a [`ConnectEvent`].
pub enum ConnectEventView {
    Start,
    Succeeded,
    Failed(ErrorView, Seq<char>),
}

impl View for ConnectEvent {
    type V = ConnectEventView;

    open spec fn view(&self) -> ConnectEventView {
        match self {
            ConnectEvent::Start => ConnectEventView::Start,
            ConnectEvent::Succeeded => ConnectEventView::Succeeded,
            ConnectEvent::Failed { error, text } => ConnectEventView::Failed(error@, text@),
        }
    }
}

/// What the caller does next.
#[derive(Debug, Clone, PartialEq, Eq)]
pub enum ConnectAction {
    DetectPlatform,
    BuildIntegrationClient,
    /// Resolve the site's UUID (for the cloud, [`cloud_site_id`] first).
    ResolveSite,
    /// Build a Session client that authenticates with the API key.
    BuildApiKeySessionClient,
    BuildSessionClient,
    /// Log the Session client in, through the session cache when there is one.
    Login,
    Refresh,
    /// Spawn the background tasks and report the connection as connected.
    StartTasks,
    /// Give up with this error.
    Fail(CoreError),
    /// Nothing: the event does not belong to this state.
    Ignore,
}

/// The mathematical form of a [`ConnectAction`].
pub enum ConnectActionView {
    DetectPlatform,
    BuildIntegrationClient,
    ResolveSite,
    BuildApiKeySessionClient,
    BuildSessionClient,
    Login,
    Refresh,
    StartTasks,
    Fail(ErrorView),
    Ignore,
}

impl View for ConnectAction {
    type V = ConnectActionView;

    open spec fn view(&self) -> ConnectActionView {
        match self {
            ConnectAction::DetectPlatform => ConnectActionView::DetectPlatform,
            ConnectAction::BuildIntegrationClient => ConnectActionView::BuildIntegrationClient,
            ConnectAction::ResolveSite => ConnectActionView::ResolveSite,
            ConnectAction::BuildApiKeySessionClient => ConnectActionView::BuildApiKeySessionClient,
            ConnectAction::BuildSessionClient => ConnectActionView::BuildSessionClient,
            ConnectAction::Login => ConnectActionView::Login,
            ConnectAction::Refresh => ConnectActionView::Refresh,
            ConnectAction::StartTasks => ConnectActionView::StartTasks,
            ConnectAction::Fail(e) => ConnectActionView::Fail(e@),
            ConnectAction::Ignore => ConnectActionView::Ignore,
        }
    }
}

/// One decision of a connection attempt: the next state, the action to
/// perform, and a warning to record, if any.
#[derive(Debug, Clone, PartialEq, Eq)]
pub struct ConnectStep {
    pub state: ConnectState,
    pub action: ConnectAction,
    pub warning: Option<String>,
}

/// The mathematical form of a [`ConnectStep`].
pub struct ConnectStepView {
    pub state: ConnectState,
    pub action: ConnectActionView,
    pub warning: Option<Seq<char>>,
}

impl View for ConnectStep {
    type V = ConnectStepView;

    open spec fn view(&self) -> ConnectStepView {
        ConnectStepView { state: self.state, action: self.action@, warning: opt_view(self.warning) }
    }
}

/// The warning of a cloud connection.
pub open spec fn cloud_warning() -> Seq<char> {
    "Cloud auth mode active: Session API and WebSocket features are unavailable"@
}

/// The warning of a hybrid connection whose Session client could not be built.
pub open spec fn session_setup_warning(text: Seq<char>) -> Seq<char> {
    "Session client setup failed: "@ + text
}

/// The warning of a hybrid connection whose Session login failed.
pub open spec fn session_login_warning(text: Seq<char>) -> Seq<char> {
    "Session login failed: "@ + text + " \u{2014} events, health stats, and client traffic will be unavailable"@
}

/// Once authenticated: refresh first when asked to, else start the tasks.
pub open spec fn authenticated(initial_refresh: bool, warning: Option<Seq<char>>) -> ConnectStepView {
    if initial_refresh {
        ConnectStepView { state: ConnectState::Refreshing, action: ConnectActionView::Refresh, warning }
    } else {
        ConnectStepView { state: ConnectState::Connected, action: ConnectActionView::StartTasks, warning }
    }
}

/// A step to `state` with `action` and no warning.
pub open spec fn plain_step(state: ConnectState, action: ConnectActionView) -> ConnectStepView {
    ConnectStepView { state, action, warning: None }
}

/// The decision of a connection attempt with `auth` in `state` on `event`.
/// API key: platform, Integration client, site (a 404 means no Integration
/// API), a Session client on the key. Credentials: platform, Session client,
/// login. Hybrid: as API key, then a Session client and login whose failures
/// only add a warning. Cloud: Integration client, site, and a warning that
/// the Session API is out of reach. Then the initial refresh when asked for,
/// and the background tasks. Any other failure ends the attempt with its
/// error; an event that does not belong to the state changes nothing.
pub open spec fn spec_connect_step(
    auth: AuthKind,
    initial_refresh: bool,
    state: ConnectState,
    event: ConnectEventView,
) -> ConnectStepView {
    match event {
        ConnectEventView::Start => if state == ConnectState::Idle {
            if auth == AuthKind::Cloud {
                plain_step(ConnectState::BuildingIntegration, ConnectActionView::BuildIntegrationClient)
            } else {
                plain_step(ConnectState::DetectingPlatform, ConnectActionView::DetectPlatform)
            }
        } else {
            plain_step(state, ConnectActionView::Ignore)
        },
        ConnectEventView::Succeeded => match state {
            ConnectState::DetectingPlatform => if auth == AuthKind::Credentials {
                plain_step(ConnectState::BuildingSession, ConnectActionView::BuildSessionClient)
            } else {
                plain_step(ConnectState::BuildingIntegration, ConnectActionView::BuildIntegrationClient)
            },
            ConnectState::BuildingIntegration => plain_step(ConnectState::ResolvingSite, ConnectActionView::ResolveSite),
            ConnectState::ResolvingSite => match auth {
                AuthKind::ApiKey => plain_step(ConnectState::BuildingSession, ConnectActionView::BuildApiKeySessionClient),
                AuthKind::Cloud => authenticated(initial_refresh, Some(cloud_warning())),
                _ => plain_step(ConnectState::BuildingSession, ConnectActionView::BuildSessionClient),
            },
            ConnectState::BuildingSession => if auth == AuthKind::ApiKey {
                authenticated(initial_refresh, None)
            } else {
                plain_step(ConnectState::LoggingIn, ConnectActionView::Login)
            },
            ConnectState::LoggingIn => authenticated(initial_refresh, None),
            ConnectState::Refreshing => plain_step(ConnectState::Connected, ConnectActionView::StartTasks),
            _ => plain_step(state, ConnectActionView::Ignore),
        },
        ConnectEventView::Failed(e, text) => match state {
            ConnectState::Idle | ConnectState::Connected | ConnectState::Failed => plain_step(
                state,
                ConnectActionView::Ignore,
            ),
            ConnectState::ResolvingSite => plain_step(
                ConnectState::Failed,
                ConnectActionView::Fail(
                    if auth == AuthKind::ApiKey || auth == AuthKind::Hybrid {
                        site_resolution_view(e)
                    } else {
                        e
                    },
                ),
            ),
            ConnectState::BuildingSession if auth == AuthKind::Hybrid => authenticated(
                initial_refresh,
                Some(session_setup_warning(text)),
            ),
            ConnectState::LoggingIn if auth == AuthKind::Hybrid => authenticated(
                initial_refresh,
                Some(session_login_warning(text)),
            ),
            _ => plain_step(ConnectState::Failed, ConnectActionView::Fail(e)),
        },
    }
}

fn authenticated_step(initial_refresh: bool, warning: Option<String>) -> (res: ConnectStep)
    ensures
        res@ == authenticated(initial_refresh, opt_view(warning)),
{
    if initial_refresh {
        ConnectStep { state: ConnectState::Refreshing, action: ConnectAction::Refresh, warning }
    } else {
        ConnectStep { state: ConnectState::Connected, action: ConnectAction::StartTasks, warning }
    }
}

fn step_to(state: ConnectState, action: ConnectAction) -> (res: ConnectStep)
    ensures
        res@ == plain_step(state, action@),
{
    ConnectStep { state, action, warning: None }
}

/// Decides the next step of a connection attempt with `auth` in `state`
/// once `event` happened (see [`spec_connect_step`]). The caller performs
/// the action, records the warning, and feeds the outcome back.
pub fn connect_step(auth: AuthKind, initial_refresh: bool, state: ConnectState, event: ConnectEvent) -> (res: ConnectStep)
    ensures
        res@ == spec_connect_step(auth, initial_refresh, state, event@),
{
    match event {
        ConnectEvent::Start => if state == ConnectState::Idle {
            if auth == AuthKind::Cloud {
                step_to(ConnectState::BuildingIntegration, ConnectAction::BuildIntegrationClient)
            } else {
                step_to(ConnectState::DetectingPlatform, ConnectAction::DetectPlatform)
            }
        } else {
            step_to(state, ConnectAction::Ignore)
        },
        ConnectEvent::Succeeded => match state {
            ConnectState::DetectingPlatform => if auth == AuthKind::Credentials {
                step_to(ConnectState::BuildingSession, ConnectAction::BuildSessionClient)
            } else {
                step_to(ConnectState::BuildingIntegration, ConnectAction::BuildIntegrationClient)
            },
            ConnectState::BuildingIntegration => step_to(ConnectState::ResolvingSite, ConnectAction::ResolveSite),
            ConnectState::ResolvingSite => match auth {
                AuthKind::ApiKey => step_to(ConnectState::BuildingSession, ConnectAction::BuildApiKeySessionClient),
                AuthKind::Cloud => {
                    let w = owned("Cloud auth mode active: Session API and WebSocket features are unavailable");
                    authenticated_step(initial_refresh, Some(w))
                },
                _ => step_to(ConnectState::BuildingSession, ConnectAction::BuildSessionClient),
            },
            ConnectState::BuildingSession => if auth == AuthKind::ApiKey {
                authenticated_step(initial_refresh, None)
            } else {
                step_to(ConnectState::LoggingIn, ConnectAction::Login)
            },
            ConnectState::LoggingIn => authenticated_step(initial_refresh, None),
            ConnectState::Refreshing => step_to(ConnectState::Connected, ConnectAction::StartTasks),
            _ => step_to(state, ConnectAction::Ignore),
        },
        ConnectEvent::Failed { error, text } => match state {
            ConnectState::Idle | ConnectState::Connected | ConnectState::Failed => step_to(
                state,
                ConnectAction::Ignore,
            ),
            ConnectState::ResolvingSite => {
                let e = if auth == AuthKind::ApiKey || auth == AuthKind::Hybrid {
                    site_resolution_error(error)
                } else {
                    error
                };
                step_to(ConnectState::Failed, ConnectAction::Fail(e))
            },
            ConnectState::BuildingSession if auth == AuthKind::Hybrid => {
                let mut w = owned("Session client setup failed: ");
                push_str(&mut w, text.as_str());
                authenticated_step(initial_refresh, Some(w))
            },
            ConnectState::LoggingIn if auth == AuthKind::Hybrid => {
                let mut w = owned("Session login failed: ");
                push_str(&mut w, text.as_str());
                push_str(&mut w, " \u{2014} events, health stats, and client traffic will be unavailable");
                authenticated_step(initial_refresh, Some(w))
            },
            _ => step_to(ConnectState::Failed, ConnectAction::Fail(error)),
        },
    }
}

/// The state after the caller reports `n` successes in a row from `state`.
pub open spec fn after_successes(auth: AuthKind, initial_refresh: bool, state: ConnectState, n: nat) -> ConnectState
    decreases n,
{
    if n == 0 {
        state
    } else {
        after_successes(
            auth,
            initial_refresh,
            spec_connect_step(auth, initial_refresh, state, ConnectEventView::Succeeded).state,
            (n - 1) as nat,
        )
    }
}

/// The number of steps a connection with `auth` performs before it is
/// connected: detecting the platform (but in the cloud), building clients,
/// resolving the site, logging in, and the initial refresh when asked for.
pub open spec fn connect_steps(auth: AuthKind, initial_refresh: bool) -> nat {
    let base: nat = match auth {
        AuthKind::ApiKey => 4,
        AuthKind::Credentials => 3,
        AuthKind::Hybrid => 5,
        AuthKind::Cloud => 2,
    };
    if initial_refresh {
        base + 1
    } else {
        base
    }
}

/// Connecting succeeds in every authentication mode when every step does:
/// after the start and [`connect_steps`] successes the connection is
/// connected, and not a step earlier.
pub proof fn lemma_connect_reaches_connected(auth: AuthKind, initial_refresh: bool)
    ensures
        ({
            let first = spec_connect_step(auth, initial_refresh, ConnectState::Idle, ConnectEventView::Start).state;
            let n = connect_steps(auth, initial_refresh);
            &&& after_successes(auth, initial_refresh, first, n) == ConnectState::Connected
            &&& after_successes(auth, initial_refresh, first, (n - 1) as nat) != ConnectState::Connected
        }),
{
    reveal_with_fuel(after_successes, 7);
}

/// Hybrid negotiation: in Hybrid mode a failure to build the Session client
/// or to log in never ends the attempt; the connection goes on to the
/// refresh or the tasks with a warning, keeping the Integration API.
pub proof fn lemma_hybrid_session_failure_only_warns(
    initial_refresh: bool,
    state: ConnectState,
    e: ErrorView,
    text: Seq<char>,
)
    requires
        state == ConnectState::BuildingSession || state == ConnectState::LoggingIn,
    ensures
        ({
            let r = spec_connect_step(AuthKind::Hybrid, initial_refresh, state, ConnectEventView::Failed(e, text));
            &&& r.action !is Fail
            &&& r.state == (if initial_refresh { ConnectState::Refreshing } else { ConnectState::Connected })
            &&& r.warning is Some
        }),
{
}

} // verus!
