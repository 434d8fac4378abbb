//! The worker-side dispatcher: the authoritative credential state, the
//! OAuth authorization-code state machine, and the mapping from bridge
//! requests to capability calls and from call outcomes to responses.
//! Every capability call is guarded: an operation that needs a token
//! while none is present answers with a typed precondition failure and
//! performs no call.

use vstd::prelude::*;

use crate::InstanceKind;
use crate::bridge::{
    CallbackAddr, FailureKind, HttpRequest, HttpResponse, OperationKind, RelationshipActionKind,
    StatusActionKind, Visibility,
};
use crate::creds::{
    auth_doc, client_doc, load_state, parse_auth_doc, parse_client_doc, save_state, AuthState,
    AuthStateView, ClientState, TokenData,
};
use crate::json::push_chars;
use crate::text::{chars_to_string, dec_digits, push_dec, string_to_chars, trim_chars, trimmed};
use crate::timeline::{Timeline, PAGE_LIMIT};

verus! {

/// Where the login flow stands. A failure during registration or code
/// exchange surfaces as a failed response and returns the flow to
/// `Configured`, from which the login can be retried.
#[derive(Clone, Copy, Debug, PartialEq, Eq, Structural)]
pub enum AuthStage {
    Unconfigured,
    Configured,
    Registering,
    AwaitingCallback,
    Authorized,
}

/// What the presentation layer may learn about the login state.
#[derive(Clone, Copy, Debug, PartialEq, Eq, Structural)]
pub enum LoginState {
    LoggedIn,
    LoggedOut,
}

/// The authorization URL the user's browser is sent to.
#[derive(Debug)]
pub struct AuthorizationURL(pub String);

/// The query the local redirect endpoint receives: the authorization
/// code, possibly padded with whitespace.
#[derive(Debug)]
pub struct CallbackQuery {
    pub code: String,
}

/// The data the live API client handle is built from: instance, dialect
/// and, once authorized, the access token. The shell turns this into
/// the real client.
#[derive(Debug)]
pub struct ClientHandle {
    pub base_url: String,
    pub instance_type: InstanceKind,
    pub token: Option<String>,
}

/// The worker's authoritative state: the one in-memory copy of the
/// registration, the token and the client handle, plus where the login
/// flow stands. The shell guards it with a single lock: shared for
/// capability calls, exclusive for the mutating operations, with a
/// bounded wait on presentation-facing queries.
#[derive(Debug)]
pub struct AppState {
    pub client_state: Option<ClientState>,
    pub auth_state: Option<AuthState>,
    pub client: Option<ClientHandle>,
    pub stage: AuthStage,
    pub redirect_addr: CallbackAddr,
}

/// A capability call the shell must perform against the remote
/// instance, blocking the worker for its duration.
#[derive(Debug)]
pub enum ApiCall {
    RegisterApp { client_name: String, scopes: Vec<String>, redirect_uri: String },
    ExchangeCode { client_id: String, client_secret: String, code: String },
    VerifyCredentials,
    FetchTimelinePage { key: Timeline, max_id: Option<u64>, limit: u32 },
    CountNewer { key: Timeline, since_id: u64 },
    SubmitStatus {
        content: String,
        cw: Option<String>,
        sensitive: bool,
        visibility: Visibility,
        reply_to: Option<u64>,
        quote: Option<u64>,
    },
    ReactToStatus { kind: StatusActionKind, status: u64 },
    Relationship { kind: RelationshipActionKind, account: u64 },
    StoreMarkers { home_last: u64, notifications_last: u64 },
}

/// What the dispatcher asks the shell to do with one request.
#[derive(Debug)]
pub enum Step {
    /// Answer at once, no network touched.
    Respond(HttpResponse),
    /// Perform this capability call, then hand its outcome to `settle`.
    Call(ApiCall),
    /// Open the URL in the user's browser.
    OpenUrl(String),
}

/// What the shell reports back from a capability call, as plain values.
#[derive(Debug)]
pub enum ApiOutcome {
    Registered { client_id: String, client_secret: String, url: Option<String> },
    TokenGranted { token: TokenData },
    AccountLoaded { account: crate::bridge::AccountRecord },
    PageLoaded { items: Vec<crate::timeline::StatusRecord> },
    Posted { id: u64 },
    Scheduled,
    StatusUpdated,
    RelationshipChanged,
    MarkersSaved,
    CallFailed { reason: FailureKind, message: String },
}

/// What settling a completed call produces: the response to enqueue
/// and, after a successful code exchange, the two documents to persist.
#[derive(Debug)]
pub struct Settled {
    pub response: HttpResponse,
    pub persist: Option<(String, String)>,
}

/// Whether a request may only run with a token present.
pub open spec fn requires_auth(req: HttpRequest) -> bool {
    match req {
        HttpRequest::Configure { .. } => false,
        HttpRequest::BeginLogin { .. } => false,
        HttpRequest::OpenExternalURL { .. } => false,
        HttpRequest::RequestSelfAccount => true,
        HttpRequest::RequestTimeline { .. } => true,
        HttpRequest::CatchUpTimeline { .. } => true,
        HttpRequest::PostStatus { .. } => true,
        HttpRequest::StatusAction { .. } => true,
        HttpRequest::RelationshipAction { .. } => true,
        HttpRequest::SaveMarkers { .. } => true,
    }
}

/// The operation a request stands for, named in its responses.
pub open spec fn kind_of(req: HttpRequest) -> OperationKind {
    match req {
        HttpRequest::Configure { .. } => OperationKind::Configure,
        HttpRequest::BeginLogin { .. } => OperationKind::Login,
        HttpRequest::OpenExternalURL { .. } => OperationKind::OpenUrl,
        HttpRequest::RequestSelfAccount => OperationKind::SelfAccount,
        HttpRequest::RequestTimeline { .. } => OperationKind::TimelineFetch,
        HttpRequest::CatchUpTimeline { .. } => OperationKind::CatchUp,
        HttpRequest::PostStatus { .. } => OperationKind::Post,
        HttpRequest::StatusAction { .. } => OperationKind::StatusAction,
        HttpRequest::RelationshipAction { .. } => OperationKind::Relationship,
        HttpRequest::SaveMarkers { .. } => OperationKind::Markers,
    }
}

/// The capability call an authenticated request resolves to. The
/// content warning doubles as the sensitivity flag, and the reply,
/// quote and visibility fields pass through unchanged.
pub open spec fn call_of(req: HttpRequest) -> ApiCall {
    match req {
        HttpRequest::RequestTimeline { key, max_id } => ApiCall::FetchTimelinePage {
            key,
            max_id,
            limit: PAGE_LIMIT,
        },
        HttpRequest::CatchUpTimeline { key, since_id } => ApiCall::CountNewer { key, since_id },
        HttpRequest::PostStatus { content, reply_to } => ApiCall::SubmitStatus {
            content: content.content,
            sensitive: content.cw is Some,
            cw: content.cw,
            visibility: content.visibility,
            reply_to,
            quote: content.quoting,
        },
        HttpRequest::StatusAction { kind, status } => ApiCall::ReactToStatus { kind, status },
        HttpRequest::RelationshipAction { kind, account } => ApiCall::Relationship {
            kind,
            account,
        },
        HttpRequest::SaveMarkers { home_last, notifications_last } => ApiCall::StoreMarkers {
            home_last,
            notifications_last,
        },
        _ => ApiCall::VerifyCredentials,
    }
}

/// The redirect URI registered with the remote app: it must name the
/// callback address exactly.
pub open spec fn redirect_uri_of(addr: CallbackAddr) -> Seq<char> {
    "http://"@ + dec_digits(addr.o1 as nat) + "."@ + dec_digits(addr.o2 as nat) + "."@
        + dec_digits(addr.o3 as nat) + "."@ + dec_digits(addr.o4 as nat) + ":"@ + dec_digits(
        addr.port as nat,
    ) + "/"@
}

/// Render the redirect URI for the callback address.
pub fn redirect_uri(addr: &CallbackAddr) -> (s: String)
    ensures
        s@ == redirect_uri_of(*addr),
{
    let mut out: Vec<char> = Vec::new();
    let head = string_to_chars("http://");
    let dot = string_to_chars(".");
    let colon = string_to_chars(":");
    let slash = string_to_chars("/");
    push_chars(&head, &mut out);
    push_dec(addr.o1 as u64, &mut out);
    push_chars(&dot, &mut out);
    push_dec(addr.o2 as u64, &mut out);
    push_chars(&dot, &mut out);
    push_dec(addr.o3 as u64, &mut out);
    push_chars(&dot, &mut out);
    push_dec(addr.o4 as u64, &mut out);
    push_chars(&colon, &mut out);
    push_dec(addr.port as u64, &mut out);
    push_chars(&slash, &mut out);
    proof {
        assert(out@ =~= redirect_uri_of(*addr));
    }
    chars_to_string(&out)
}

/// The fixed acknowledgement body the local endpoint answers the
/// browser with, whatever the exchange came to.
pub fn callback_ack() -> (s: &'static str)
    ensures
        s@ == "authorisation complete"@,
{
    "authorisation complete"
}

impl AppState {
    /// Both a live client handle and a token are present.
    pub open spec fn logged_in(self) -> bool {
        self.auth_state is Some && self.client is Some
    }

    /// A worker that has not been configured yet.
    pub fn new(redirect_addr: CallbackAddr) -> (s: AppState)
        ensures
            s.client_state is None,
            s.auth_state is None,
            s.client is None,
            s.stage is Unconfigured,
            s.redirect_addr == redirect_addr,
    {
        AppState {
            client_state: None,
            auth_state: None,
            client: None,
            stage: AuthStage::Unconfigured,
            redirect_addr,
        }
    }

    /// Whether the worker holds both a live client handle and a token.
    /// The shell takes the state lock with a bounded wait and reports
    /// an indeterminate error on timeout instead of aborting.
    pub fn has_logged_in(&self) -> (r: bool)
        ensures
            r == self.logged_in(),
    {
        self.auth_state.is_some() && self.client.is_some()
    }
}

/// The login state as reported to the presentation layer.
pub fn login_state(state: &AppState) -> (r: LoginState)
    ensures
        r is LoggedIn <==> state.logged_in(),
{
    if state.has_logged_in() {
        LoginState::LoggedIn
    } else {
        LoginState::LoggedOut
    }
}

impl AppState {
    /// Rebuild the worker state from whatever document text the shell
    /// found on disk at startup. Missing or unreadable documents
    /// degrade to the logged-out or unconfigured state; they never
    /// abort.
    pub fn setup(&mut self, client_text: Option<&str>, auth_text: Option<&str>)
        ensures
            final(self).redirect_addr == old(self).redirect_addr,
            final(self).client_state is Some <==> (client_text is Some && parse_client_doc(
                client_text.unwrap()@,
            ) is Some),
            final(self).client_state is Some ==> parse_client_doc(client_text.unwrap()@) == Some(
                final(self).client_state.unwrap()@,
            ),
            final(self).auth_state is Some <==> (final(self).client_state is Some && auth_text
                is Some && parse_auth_doc(auth_text.unwrap()@) is Some),
            final(self).auth_state is Some ==> parse_auth_doc(auth_text.unwrap()@) == Some(
                final(self).auth_state.unwrap()@,
            ),
            final(self).client is Some <==> final(self).client_state is Some,
            final(self).client is Some ==> ({
                let h = final(self).client.unwrap();
                let cs = final(self).client_state.unwrap();
                &&& h.base_url@ == cs.base_url@
                &&& h.instance_type == cs.instance_type
                &&& (h.token is Some <==> final(self).auth_state is Some)
                &&& (h.token is Some ==> h.token.unwrap()@ == final(self).auth_state.unwrap().token.access_token@)
            }),
            final(self).stage == (if final(self).auth_state is Some {
                AuthStage::Authorized
            } else if final(self).client_state is Some {
                AuthStage::Configured
            } else {
                AuthStage::Unconfigured
            }),
    {
        let (client_state, auth_state) = load_state(client_text, auth_text);
        let client = match &client_state {
            None => None,
            Some(cs) => Some(
                ClientHandle {
                    base_url: cs.base_url.clone(),
                    instance_type: cs.instance_type,
                    token: match &auth_state {
                        None => None,
                        Some(a) => Some(a.token.access_token.clone()),
                    },
                },
            ),
        };
        let stage = if auth_state.is_some() {
            AuthStage::Authorized
        } else if client_state.is_some() {
            AuthStage::Configured
        } else {
            AuthStage::Unconfigured
        };
        self.client_state = client_state;
        self.auth_state = auth_state;
        self.client = client;
        self.stage = stage;
    }

    /// Dispatch one bridge request: answer it directly, or name the
    /// capability call the shell must perform. A request that needs a
    /// token while none is present is answered with a typed
    /// precondition failure and reaches no capability call.
    pub fn handle(&mut self, req: HttpRequest) -> (r: Step)
        ensures
            final(self).redirect_addr == old(self).redirect_addr,
            requires_auth(req) && !old(self).logged_in() ==> *final(self) == *old(self) && (
            r matches Step::Respond(
                HttpResponse::OperationFailed { kind, reason, message: _ },
            ) && kind == kind_of(req) && reason is Precondition),
            requires_auth(req) && old(self).logged_in() ==> *final(self) == *old(self) && r
                == Step::Call(call_of(req)),
            (match req {
                HttpRequest::Configure { base_url, instance_type } => {
                    &&& final(self).client_state matches Some(cs) && cs.client_id@ == Seq::<
                        char,
                    >::empty() && cs.client_secret@ == Seq::<char>::empty() && cs.base_url@
                        == base_url@ && cs.instance_type == instance_type
                    &&& final(self).auth_state is None
                    &&& final(self).client matches Some(h) && h.base_url@ == base_url@
                        && h.instance_type == instance_type && h.token is None
                    &&& final(self).stage is Configured
                    &&& r matches Step::Respond(
                        HttpResponse::OperationSucceeded { kind: OperationKind::Configure },
                    )
                },
                HttpRequest::BeginLogin { addr } => {
                    if old(self).stage is Configured {
                        &&& *final(self) == (AppState {
                            stage: AuthStage::Registering,
                            ..*old(self)
                        })
                        &&& r matches Step::Call(
                            ApiCall::RegisterApp { client_name, scopes, redirect_uri },
                        ) && client_name@ == "dakko"@ && scopes@.len() == 3 && scopes@[0]@
                            == "read"@ && scopes@[1]@ == "write"@ && scopes@[2]@ == "follow"@
                            && redirect_uri@ == redirect_uri_of(addr)
                    } else {
                        &&& *final(self) == *old(self)
                        &&& r matches Step::Respond(
                            HttpResponse::OperationFailed {
                                kind: OperationKind::Login,
                                reason: FailureKind::State,
                                message: _,
                            },
                        )
                    }
                },
                HttpRequest::OpenExternalURL { url } => *final(self) == *old(self) && r
                    == Step::OpenUrl(url),
                _ => true,
            }),
    {
        match req {
            HttpRequest::Configure { base_url, instance_type } => {
                self.client_state = Some(
                    ClientState {
                        client_id: String::new(),
                        client_secret: String::new(),
                        base_url: base_url.clone(),
                        instance_type,
                    },
                );
                self.auth_state = None;
                self.client = Some(ClientHandle { base_url, instance_type, token: None });
                self.stage = AuthStage::Configured;
                Step::Respond(HttpResponse::OperationSucceeded { kind: OperationKind::Configure })
            },
            HttpRequest::BeginLogin { addr } => {
                if matches!(self.stage, AuthStage::Configured) {
                    self.stage = AuthStage::Registering;
                    let mut scopes: Vec<String> = Vec::new();
                    scopes.push(String::from_str("read"));
                    scopes.push(String::from_str("write"));
                    scopes.push(String::from_str("follow"));
                    Step::Call(
                        ApiCall::RegisterApp {
                            client_name: String::from_str("dakko"),
                            scopes,
                            redirect_uri: redirect_uri(&addr),
                        },
                    )
                } else {
                    Step::Respond(
                        HttpResponse::OperationFailed {
                            kind: OperationKind::Login,
                            reason: FailureKind::State,
                            message: String::from_str("login cannot start from this state"),
                        },
                    )
                }
            },
            HttpRequest::OpenExternalURL { url } => Step::OpenUrl(url),
            _ => {
                if !self.has_logged_in() {
                    let kind = match &req {
                        HttpRequest::RequestSelfAccount => OperationKind::SelfAccount,
                        HttpRequest::RequestTimeline { .. } => OperationKind::TimelineFetch,
                        HttpRequest::CatchUpTimeline { .. } => OperationKind::CatchUp,
                        HttpRequest::PostStatus { .. } => OperationKind::Post,
                        HttpRequest::StatusAction { .. } => OperationKind::StatusAction,
                        HttpRequest::RelationshipAction { .. } => OperationKind::Relationship,
                        _ => OperationKind::Markers,
                    };
                    return Step::Respond(
                        HttpResponse::OperationFailed {
                            kind,
                            reason: FailureKind::Precondition,
                            message: String::from_str("not authenticated"),
                        },
                    );
                }
                match req {
                    HttpRequest::RequestSelfAccount => Step::Call(ApiCall::VerifyCredentials),
                    HttpRequest::RequestTimeline { key, max_id } => Step::Call(
                        ApiCall::FetchTimelinePage { key, max_id, limit: PAGE_LIMIT },
                    ),
                    HttpRequest::CatchUpTimeline { key, since_id } => Step::Call(
                        ApiCall::CountNewer { key, since_id },
                    ),
                    HttpRequest::PostStatus { content, reply_to } => {
                        let sensitive = content.cw.is_some();
                        Step::Call(
                            ApiCall::SubmitStatus {
                                content: content.content,
                                sensitive,
                                cw: content.cw,
                                visibility: content.visibility,
                                reply_to,
                                quote: content.quoting,
                            },
                        )
                    },
                    HttpRequest::StatusAction { kind, status } => Step::Call(
                        ApiCall::ReactToStatus { kind, status },
                    ),
                    HttpRequest::RelationshipAction { kind, account } => Step::Call(
                        ApiCall::Relationship { kind, account },
                    ),
                    HttpRequest::SaveMarkers { home_last, notifications_last } => Step::Call(
                        ApiCall::StoreMarkers { home_last, notifications_last },
                    ),
                    _ => Step::Respond(
                        HttpResponse::OperationFailed {
                            kind: OperationKind::Configure,
                            reason: FailureKind::State,
                            message: String::from_str("unreachable request"),
                        },
                    ),
                }
            },
        }
    }

    /// Settle the outcome of a completed capability call: advance the
    /// login flow where the call was part of it, name the response to
    /// enqueue and, after a successful code exchange, the two documents
    /// to persist. No outcome crashes the worker: every failure becomes
    /// a tagged response and the worker keeps draining requests.
    pub fn settle(&mut self, call: ApiCall, outcome: ApiOutcome) -> (r: Settled)
        ensures
            final(self).redirect_addr == old(self).redirect_addr,
            !(call is RegisterApp || call is ExchangeCode) ==> *final(self) == *old(self)
                && r.persist is None,
            (match call {
                ApiCall::RegisterApp { .. } => (match outcome {
                    ApiOutcome::Registered { client_id, client_secret, url } => {
                        if old(self).stage is Registering && old(self).client_state is Some && url
                            is Some {
                            &&& final(self).client_state matches Some(cs) && cs.client_id@
                                == client_id@ && cs.client_secret@ == client_secret@ && cs.base_url@
                                == old(self).client_state.unwrap().base_url@ && cs.instance_type
                                == old(self).client_state.unwrap().instance_type
                            &&& final(self).stage is AwaitingCallback
                            &&& final(self).auth_state == old(self).auth_state
                            &&& final(self).client == old(self).client
                            &&& r.response matches HttpResponse::AuthURLReady { url: u } && u@
                                == url.unwrap()@
                            &&& r.persist is None
                        } else {
                            &&& *final(self) == (AppState {
                                stage: if old(self).stage is Registering {
                                    AuthStage::Configured
                                } else {
                                    old(self).stage
                                },
                                ..*old(self)
                            })
                            &&& r.response matches HttpResponse::OperationFailed {
                                kind: OperationKind::Login,
                                reason,
                                message: _,
                            } && (reason is Unsupported || reason is State)
                            &&& r.persist is None
                        }
                    },
                    ApiOutcome::CallFailed { reason, message } => {
                        &&& *final(self) == (AppState {
                            stage: if old(self).stage is Registering {
                                AuthStage::Configured
                            } else {
                                old(self).stage
                            },
                            ..*old(self)
                        })
                        &&& r.response matches HttpResponse::OperationFailed {
                            kind: OperationKind::Login,
                            reason: rs,
                            message: m,
                        } && rs == reason && m@ == message@
                        &&& r.persist is None
                    },
                    _ => {
                        &&& *final(self) == *old(self)
                        &&& r.response matches HttpResponse::OperationFailed {
                            kind: OperationKind::Login,
                            reason: FailureKind::State,
                            message: _,
                        }
                        &&& r.persist is None
                    },
                }),
                ApiCall::ExchangeCode { .. } => (match outcome {
                    ApiOutcome::TokenGranted { token } => {
                        if old(self).client_state is Some {
                            &&& final(self).auth_state matches Some(a) && a.token == token
                            &&& final(self).client matches Some(h) && h.base_url@ == old(
                                self,
                            ).client_state.unwrap().base_url@ && h.instance_type == old(
                                self,
                            ).client_state.unwrap().instance_type && (h.token matches Some(t) && t@
                                == token.access_token@)
                            &&& final(self).client_state == old(self).client_state
                            &&& final(self).stage is Authorized
                            &&& r.response is TokenObtained
                            &&& r.persist matches Some(docs) && docs.0@ == client_doc(
                                old(self).client_state.unwrap()@,
                            ) && docs.1@ == auth_doc(AuthStateView { token: token@ })
                        } else {
                            &&& *final(self) == *old(self)
                            &&& r.response matches HttpResponse::OperationFailed {
                                kind: OperationKind::Login,
                                reason: FailureKind::State,
                                message: _,
                            }
                            &&& r.persist is None
                        }
                    },
                    ApiOutcome::CallFailed { reason, message } => {
                        &&& *final(self) == (AppState {
                            stage: if old(self).stage is AwaitingCallback {
                                AuthStage::Configured
                            } else {
                                old(self).stage
                            },
                            ..*old(self)
                        })
                        &&& r.response matches HttpResponse::OperationFailed {
                            kind: OperationKind::Login,
                            reason: rs,
                            message: m,
                        } && rs == reason && m@ == message@
                        &&& r.persist is None
                    },
                    _ => {
                        &&& *final(self) == *old(self)
                        &&& r.response matches HttpResponse::OperationFailed {
                            kind: OperationKind::Login,
                            reason: FailureKind::State,
                            message: _,
                        }
                        &&& r.persist is None
                    },
                }),
                ApiCall::VerifyCredentials => (match outcome {
                    ApiOutcome::AccountLoaded { account } => r.response matches
                        HttpResponse::SelfAccount { account: a } && a == account,
                    ApiOutcome::CallFailed { reason, message } => r.response matches
                        HttpResponse::OperationFailed {
                        kind: OperationKind::SelfAccount,
                        reason: rs,
                        message: m,
                    } && rs == reason && m@ == message@,
                    _ => r.response matches HttpResponse::OperationFailed {
                        kind: OperationKind::SelfAccount,
                        reason: FailureKind::State,
                        message: _,
                    },
                }),
                ApiCall::FetchTimelinePage { key, .. } => (match outcome {
                    ApiOutcome::PageLoaded { items } => r.response matches
                        HttpResponse::TimelineLoaded { key: k, items: its } && k == key && its
                        == items,
                    ApiOutcome::CallFailed { reason, message } => r.response matches
                        HttpResponse::TimelineUnavailable { key: k, reason: rs, message: m } && k
                        == key && rs == reason && m@ == message@,
                    _ => r.response matches HttpResponse::TimelineUnavailable {
                        key: k,
                        reason: FailureKind::State,
                        message: _,
                    } && k == key,
                }),
                ApiCall::CountNewer { key, .. } => (match outcome {
                    ApiOutcome::PageLoaded { items } => r.response matches
                        HttpResponse::CatchUpCount { key: k, count } && k == key && count
                        == items@.len(),
                    ApiOutcome::CallFailed { reason, message } => r.response matches
                        HttpResponse::OperationFailed {
                        kind: OperationKind::CatchUp,
                        reason: rs,
                        message: m,
                    } && rs == reason && m@ == message@,
                    _ => r.response matches HttpResponse::OperationFailed {
                        kind: OperationKind::CatchUp,
                        reason: FailureKind::State,
                        message: _,
                    },
                }),
                ApiCall::SubmitStatus { .. } => (match outcome {
                    ApiOutcome::Posted { .. } => r.response matches
                        HttpResponse::OperationSucceeded { kind: OperationKind::Post },
                    ApiOutcome::Scheduled => r.response matches HttpResponse::OperationFailed {
                        kind: OperationKind::Post,
                        reason: FailureKind::Unsupported,
                        message: _,
                    },
                    ApiOutcome::CallFailed { reason, message } => r.response matches
                        HttpResponse::OperationFailed {
                        kind: OperationKind::Post,
                        reason: rs,
                        message: m,
                    } && rs == reason && m@ == message@,
                    _ => r.response matches HttpResponse::OperationFailed {
                        kind: OperationKind::Post,
                        reason: FailureKind::State,
                        message: _,
                    },
                }),
                ApiCall::ReactToStatus { .. } => (match outcome {
                    ApiOutcome::StatusUpdated => r.response matches
                        HttpResponse::OperationSucceeded { kind: OperationKind::StatusAction },
                    ApiOutcome::CallFailed { reason, message } => r.response matches
                        HttpResponse::OperationFailed {
                        kind: OperationKind::StatusAction,
                        reason: rs,
                        message: m,
                    } && rs == reason && m@ == message@,
                    _ => r.response matches HttpResponse::OperationFailed {
                        kind: OperationKind::StatusAction,
                        reason: FailureKind::State,
                        message: _,
                    },
                }),
                ApiCall::Relationship { .. } => (match outcome {
                    ApiOutcome::RelationshipChanged => r.response matches
                        HttpResponse::OperationSucceeded { kind: OperationKind::Relationship },
                    ApiOutcome::CallFailed { reason, message } => r.response matches
                        HttpResponse::OperationFailed {
                        kind: OperationKind::Relationship,
                        reason: rs,
                        message: m,
                    } && rs == reason && m@ == message@,
                    _ => r.response matches HttpResponse::OperationFailed {
                        kind: OperationKind::Relationship,
                        reason: FailureKind::State,
                        message: _,
                    },
                }),
                ApiCall::StoreMarkers { .. } => (match outcome {
                    ApiOutcome::MarkersSaved => r.response matches
                        HttpResponse::OperationSucceeded { kind: OperationKind::Markers },
                    ApiOutcome::CallFailed { reason, message } => r.response matches
                        HttpResponse::OperationFailed {
                        kind: OperationKind::Markers,
                        reason: rs,
                        message: m,
                    } && rs == reason && m@ == message@,
                    _ => r.response matches HttpResponse::OperationFailed {
                        kind: OperationKind::Markers,
                        reason: FailureKind::State,
                        message: _,
                    },
                }),
            }),
    {
        match call {
            ApiCall::RegisterApp { .. } => {
                match outcome {
                    ApiOutcome::Registered { client_id, client_secret, url } => {
                        if matches!(self.stage, AuthStage::Registering) && self.client_state.is_some()
                            && url.is_some() {
                            let (base_url, instance_type) = {
                                let cs = self.client_state.as_ref().unwrap();
                                (cs.base_url.clone(), cs.instance_type)
                            };
                            self.client_state = Some(
                                ClientState { client_id, client_secret, base_url, instance_type },
                            );
                            self.stage = AuthStage::AwaitingCallback;
                            Settled {
                                response: HttpResponse::AuthURLReady { url: url.unwrap() },
                                persist: None,
                            }
                        } else {
                            let reason = if url.is_none() {
                                FailureKind::Unsupported
                            } else {
                                FailureKind::State
                            };
                            if matches!(self.stage, AuthStage::Registering) {
                                self.stage = AuthStage::Configured;
                            }
                            Settled {
                                response: HttpResponse::OperationFailed {
                                    kind: OperationKind::Login,
                                    reason,
                                    message: String::from_str("app registration not usable"),
                                },
                                persist: None,
                            }
                        }
                    },
                    ApiOutcome::CallFailed { reason, message } => {
                        if matches!(self.stage, AuthStage::Registering) {
                            self.stage = AuthStage::Configured;
                        }
                        Settled {
                            response: HttpResponse::OperationFailed {
                                kind: OperationKind::Login,
                                reason,
                                message,
                            },
                            persist: None,
                        }
                    },
                    _ => Settled {
                        response: HttpResponse::OperationFailed {
                            kind: OperationKind::Login,
                            reason: FailureKind::State,
                            message: String::from_str("unexpected registration outcome"),
                        },
                        persist: None,
                    },
                }
            },
            ApiCall::ExchangeCode { .. } => {
                match outcome {
                    ApiOutcome::TokenGranted { token } => {
                        if self.client_state.is_some() {
                            let auth = AuthState { token };
                            let (docs, handle) = {
                                let cs = self.client_state.as_ref().unwrap();
                                (
                                    save_state(cs, &auth),
                                    ClientHandle {
                                        base_url: cs.base_url.clone(),
                                        instance_type: cs.instance_type,
                                        token: Some(auth.token.access_token.clone()),
                                    },
                                )
                            };
                            self.auth_state = Some(auth);
                            self.client = Some(handle);
                            self.stage = AuthStage::Authorized;
                            Settled { response: HttpResponse::TokenObtained, persist: Some(docs) }
                        } else {
                            Settled {
                                response: HttpResponse::OperationFailed {
                                    kind: OperationKind::Login,
                                    reason: FailureKind::State,
                                    message: String::from_str("no registration to authorize"),
                                },
                                persist: None,
                            }
                        }
                    },
                    ApiOutcome::CallFailed { reason, message } => {
                        if matches!(self.stage, AuthStage::AwaitingCallback) {
                            self.stage = AuthStage::Configured;
                        }
                        Settled {
                            response: HttpResponse::OperationFailed {
                                kind: OperationKind::Login,
                                reason,
                                message,
                            },
                            persist: None,
                        }
                    },
                    _ => Settled {
                        response: HttpResponse::OperationFailed {
                            kind: OperationKind::Login,
                            reason: FailureKind::State,
                            message: String::from_str("unexpected exchange outcome"),
                        },
                        persist: None,
                    },
                }
            },
            ApiCall::VerifyCredentials => {
                match outcome {
                    ApiOutcome::AccountLoaded { account } => Settled {
                        response: HttpResponse::SelfAccount { account },
                        persist: None,
                    },
                    ApiOutcome::CallFailed { reason, message } => Settled {
                        response: HttpResponse::OperationFailed {
                            kind: OperationKind::SelfAccount,
                            reason,
                            message,
                        },
                        persist: None,
                    },
                    _ => Settled {
                        response: HttpResponse::OperationFailed {
                            kind: OperationKind::SelfAccount,
                            reason: FailureKind::State,
                            message: String::from_str("unexpected account outcome"),
                        },
                        persist: None,
                    },
                }
            },
            ApiCall::FetchTimelinePage { key, .. } => {
                match outcome {
                    ApiOutcome::PageLoaded { items } => Settled {
                        response: HttpResponse::TimelineLoaded { key, items },
                        persist: None,
                    },
                    ApiOutcome::CallFailed { reason, message } => Settled {
                        response: HttpResponse::TimelineUnavailable { key, reason, message },
                        persist: None,
                    },
                    _ => Settled {
                        response: HttpResponse::TimelineUnavailable {
                            key,
                            reason: FailureKind::State,
                            message: String::from_str("unexpected page outcome"),
                        },
                        persist: None,
                    },
                }
            },
            ApiCall::CountNewer { key, .. } => {
                match outcome {
                    ApiOutcome::PageLoaded { items } => Settled {
                        response: HttpResponse::CatchUpCount { key, count: items.len() },
                        persist: None,
                    },
                    ApiOutcome::CallFailed { reason, message } => Settled {
                        response: HttpResponse::OperationFailed {
                            kind: OperationKind::CatchUp,
                            reason,
                            message,
                        },
                        persist: None,
                    },
                    _ => Settled {
                        response: HttpResponse::OperationFailed {
                            kind: OperationKind::CatchUp,
                            reason: FailureKind::State,
                            message: String::from_str("unexpected catch-up outcome"),
                        },
                        persist: None,
                    },
                }
            },
            ApiCall::SubmitStatus { .. } => {
                match outcome {
                    ApiOutcome::Posted { .. } => Settled {
                        response: HttpResponse::OperationSucceeded { kind: OperationKind::Post },
                        persist: None,
                    },
                    ApiOutcome::Scheduled => Settled {
                        response: HttpResponse::OperationFailed {
                            kind: OperationKind::Post,
                            reason: FailureKind::Unsupported,
                            message: String::from_str("scheduled posts are not modelled"),
                        },
                        persist: None,
                    },
                    ApiOutcome::CallFailed { reason, message } => Settled {
                        response: HttpResponse::OperationFailed {
                            kind: OperationKind::Post,
                            reason,
                            message,
                        },
                        persist: None,
                    },
                    _ => Settled {
                        response: HttpResponse::OperationFailed {
                            kind: OperationKind::Post,
                            reason: FailureKind::State,
                            message: String::from_str("unexpected post outcome"),
                        },
                        persist: None,
                    },
                }
            },
            ApiCall::ReactToStatus { .. } => {
                match outcome {
                    ApiOutcome::StatusUpdated => Settled {
                        response: HttpResponse::OperationSucceeded {
                            kind: OperationKind::StatusAction,
                        },
                        persist: None,
                    },
                    ApiOutcome::CallFailed { reason, message } => Settled {
                        response: HttpResponse::OperationFailed {
                            kind: OperationKind::StatusAction,
                            reason,
                            message,
                        },
                        persist: None,
                    },
                    _ => Settled {
                        response: HttpResponse::OperationFailed {
                            kind: OperationKind::StatusAction,
                            reason: FailureKind::State,
                            message: String::from_str("unexpected reaction outcome"),
                        },
                        persist: None,
                    },
                }
            },
            ApiCall::Relationship { .. } => {
                match outcome {
                    ApiOutcome::RelationshipChanged => Settled {
                        response: HttpResponse::OperationSucceeded {
                            kind: OperationKind::Relationship,
                        },
                        persist: None,
                    },
                    ApiOutcome::CallFailed { reason, message } => Settled {
                        response: HttpResponse::OperationFailed {
                            kind: OperationKind::Relationship,
                            reason,
                            message,
                        },
                        persist: None,
                    },
                    _ => Settled {
                        response: HttpResponse::OperationFailed {
                            kind: OperationKind::Relationship,
                            reason: FailureKind::State,
                            message: String::from_str("unexpected relationship outcome"),
                        },
                        persist: None,
                    },
                }
            },
            ApiCall::StoreMarkers { .. } => {
                match outcome {
                    ApiOutcome::MarkersSaved => Settled {
                        response: HttpResponse::OperationSucceeded { kind: OperationKind::Markers },
                        persist: None,
                    },
                    ApiOutcome::CallFailed { reason, message } => Settled {
                        response: HttpResponse::OperationFailed {
                            kind: OperationKind::Markers,
                            reason,
                            message,
                        },
                        persist: None,
                    },
                    _ => Settled {
                        response: HttpResponse::OperationFailed {
                            kind: OperationKind::Markers,
                            reason: FailureKind::State,
                            message: String::from_str("unexpected marker outcome"),
                        },
                        persist: None,
                    },
                }
            },
        }
    }

    /// The local redirect endpoint received the browser's callback:
    /// trim the code and name the exchange call, or report why no
    /// exchange can run. The listener answers the browser with the
    /// fixed acknowledgement either way, and the shell stops it after
    /// the exchange settles. Known gap, kept as the protocol stands:
    /// the authorization URL carries no CSRF state parameter, so the
    /// callback has none to verify.
    pub fn authorize(&mut self, query: CallbackQuery) -> (r: Result<ApiCall, HttpResponse>)
        ensures
            *final(self) == *old(self),
            old(self).stage is AwaitingCallback && old(self).client_state is Some ==> (
            r matches Ok(ApiCall::ExchangeCode { client_id, client_secret, code }) && client_id@
                == old(self).client_state.unwrap().client_id@ && client_secret@ == old(
                self,
            ).client_state.unwrap().client_secret@ && code@ == trimmed(query.code@)),
            !(old(self).stage is AwaitingCallback && old(self).client_state is Some) ==> (
            r matches Err(
                HttpResponse::OperationFailed {
                    kind: OperationKind::Login,
                    reason: FailureKind::State,
                    message: _,
                },
            )),
    {
        if matches!(self.stage, AuthStage::AwaitingCallback) && self.client_state.is_some() {
            let cs = match &self.client_state {
                Some(cs) => cs,
                None => {
                    return Err(
                        HttpResponse::OperationFailed {
                            kind: OperationKind::Login,
                            reason: FailureKind::State,
                            message: String::from_str("no registration in progress"),
                        },
                    );
                },
            };
            let raw = string_to_chars(query.code.as_str());
            let code_chars = trim_chars(&raw);
            Ok(
                ApiCall::ExchangeCode {
                    client_id: cs.client_id.clone(),
                    client_secret: cs.client_secret.clone(),
                    code: chars_to_string(&code_chars),
                },
            )
        } else {
            Err(
                HttpResponse::OperationFailed {
                    kind: OperationKind::Login,
                    reason: FailureKind::State,
                    message: String::from_str("no login awaiting a callback"),
                },
            )
        }
    }
}

} // verus!
