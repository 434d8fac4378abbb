//! The presentation-side engine: the state the redraw loop owns, and
//! the pure handling of bridge responses. Nothing here blocks: each
//! redraw tick polls at most one response, hands it to
//! `handle_http_response`, and sends whatever requests come back.

use vstd::prelude::*;

use crate::InstanceKind;
use crate::bridge::{AccountRecord, CallbackAddr, Content, FailureKind, HttpRequest, HttpResponse,
    OperationKind, Visibility};
use crate::creds::ClientState;
use crate::dispatch::AuthorizationURL;
use crate::timeline::{
    abort_step, complete_step, load_step, stale_step, Timeline, TimelineCache,
};

verus! {

/// The display text of one status.
#[derive(Debug)]
pub struct ContentComponent {
    pub content: String,
}

impl ContentComponent {
    /// Keep the rendered text of a status for display.
    pub fn new(html: String) -> (c: ContentComponent)
        ensures
            c.content@ == html@,
    {
        ContentComponent { content: html }
    }
}

/// A status composed in the editor, ready to post: body text, the
/// status being replied to if any, and the chosen visibility.
#[derive(Debug)]
pub struct PostableContent {
    pub content: String,
    pub reply_id: Option<u64>,
    pub visibility: Visibility,
}

impl PostableContent {
    /// What pressing the editor's post button sends.
    pub fn into_request(self) -> (r: HttpRequest)
        ensures
            r == (HttpRequest::PostStatus {
                content: Content {
                    content: self.content,
                    cw: None,
                    visibility: self.visibility,
                    quoting: None,
                },
                reply_to: self.reply_id,
            }),
    {
        HttpRequest::PostStatus {
            content: Content {
                content: self.content,
                cw: None,
                visibility: self.visibility,
                quoting: None,
            },
            reply_to: self.reply_id,
        }
    }
}

/// The login form: it edits the bootstrap fields in place, and its
/// submit action asks the worker to target the chosen instance and
/// begin the login.
pub struct BootstrapComponent;

impl BootstrapComponent {
    /// What pressing the form's continue button sends: configure the
    /// chosen instance, then begin the login at the callback address.
    pub fn submit(app: &MainApp) -> (out: Vec<HttpRequest>)
        ensures
            out@.len() == 2,
            (out@[0] matches HttpRequest::Configure { base_url, instance_type } && base_url@
                == app.bootstrap.base_url@ && instance_type == app.bootstrap.instance_type),
            out@[1] == (HttpRequest::BeginLogin { addr: app.bootstrap.callback_addr }),
    {
        let mut out: Vec<HttpRequest> = Vec::new();
        out.push(
            HttpRequest::Configure {
                base_url: app.bootstrap.base_url.clone(),
                instance_type: app.bootstrap.instance_type,
            },
        );
        out.push(HttpRequest::BeginLogin { addr: app.bootstrap.callback_addr });
        out
    }
}

/// What the login screen edits before an instance is chosen, and the
/// authorization URL once app registration succeeds.
#[derive(Debug)]
pub struct BootstrapState {
    pub base_url: String,
    pub instance_type: InstanceKind,
    pub auth_url: Option<AuthorizationURL>,
    pub callback_addr: CallbackAddr,
}

/// A failure reported on the response channel, kept for display.
#[derive(Debug)]
pub struct FailureNote {
    pub kind: OperationKind,
    pub reason: FailureKind,
    pub message: String,
}

/// The signed-in part of the presentation state.
#[derive(Debug)]
pub struct ActiveState {
    pub account: AccountRecord,
    pub current_timeline: Timeline,
    pub timelines: TimelineCache,
    pub pending_newer: Option<(Timeline, usize)>,
}

/// The state the presentation loop owns: a read-only snapshot of the
/// registration, whether the worker holds a token, the bootstrap form,
/// and the signed-in state once the account is known. Credentials are
/// never mutated here; the worker owns the authoritative copy.
#[derive(Debug)]
pub struct MainApp {
    pub bootstrap: BootstrapState,
    pub client_state: Option<ClientState>,
    pub authorized: bool,
    pub active: Option<ActiveState>,
    pub last_failure: Option<FailureNote>,
}

impl MainApp {
    /// A fresh presentation state around a snapshot of the persisted
    /// registration; asks for the signed-in account when a token is
    /// already present.
    pub fn new(client_state: Option<ClientState>, authorized: bool) -> (r: (
        MainApp,
        Option<HttpRequest>,
    ))
        ensures
            r.0.bootstrap.base_url@ == "https://labyrinth.zone"@,
            r.0.bootstrap.instance_type is Pleroma,
            r.0.bootstrap.auth_url is None,
            r.0.bootstrap.callback_addr == (CallbackAddr { o1: 127, o2: 0, o3: 0, o4: 1, port: 9119 }),
            r.0.client_state == client_state,
            r.0.authorized == authorized,
            r.0.active is None,
            r.0.last_failure is None,
            authorized ==> r.1 == Some(HttpRequest::RequestSelfAccount),
            !authorized ==> r.1 is None,
    {
        let app = MainApp {
            bootstrap: BootstrapState {
                base_url: String::from_str("https://labyrinth.zone"),
                instance_type: InstanceKind::Pleroma,
                auth_url: None,
                callback_addr: CallbackAddr { o1: 127, o2: 0, o3: 0, o4: 1, port: 9119 },
            },
            client_state,
            authorized,
            active: None,
            last_failure: None,
        };
        let req = if authorized {
            Some(HttpRequest::RequestSelfAccount)
        } else {
            None
        };
        (app, req)
    }

    /// Whether the presentation side believes the session is live.
    pub fn is_logged_in(&self) -> (r: bool)
        ensures
            r == self.authorized,
    {
        self.authorized
    }

    /// Whether the signed-in state has arrived.
    pub fn has_active_state(&self) -> (r: bool)
        ensures
            r == (self.active is Some),
    {
        self.active.is_some()
    }

    /// Ask for (more of) a timeline: a no-op while a fetch is in flight
    /// or the timeline is up to date, else the request to send.
    pub fn load_timeline(&mut self, key: Timeline) -> (r: Option<HttpRequest>)
        ensures
            old(self).active is None ==> *final(self) == *old(self) && r is None,
            old(self).active is Some ==> ({
                let step = load_step(old(self).active.unwrap().timelines@, key);
                &&& final(self).active matches Some(a) && a.timelines@ == step.0 && a.account
                    == old(self).active.unwrap().account && a.current_timeline == old(
                    self,
                ).active.unwrap().current_timeline && a.pending_newer == old(
                    self,
                ).active.unwrap().pending_newer
                &&& final(self).bootstrap == old(self).bootstrap
                &&& final(self).client_state == old(self).client_state
                &&& final(self).authorized == old(self).authorized
                &&& final(self).last_failure == old(self).last_failure
                &&& (step.1 is Some ==> r == Some(
                    HttpRequest::RequestTimeline { key, max_id: step.1.unwrap().max_id },
                ))
                &&& (step.1 is None ==> r is None)
            }),
    {
        let cur = self.active.take();
        match cur {
            None => {
                self.active = None;
                None
            },
            Some(mut a) => {
                let cmd = a.timelines.load(key);
                self.active = Some(a);
                match cmd {
                    None => None,
                    Some(c) => Some(HttpRequest::RequestTimeline { key, max_id: c.max_id }),
                }
            },
        }
    }

    /// The scroll-triggered refill: when the rendered buffer runs low
    /// (`near_end`, decided by the shell from pixel arithmetic), clear
    /// the up-to-date flag and ask for the next older page.
    pub fn refill(&mut self, key: Timeline, near_end: bool) -> (r: Option<HttpRequest>)
        ensures
            !near_end || old(self).active is None ==> *final(self) == *old(self) && r is None,
            near_end && old(self).active is Some ==> ({
                let stale = stale_step(old(self).active.unwrap().timelines@, key);
                let step = load_step(stale, key);
                &&& final(self).active matches Some(a) && a.timelines@ == step.0 && a.account
                    == old(self).active.unwrap().account && a.current_timeline == old(
                    self,
                ).active.unwrap().current_timeline && a.pending_newer == old(
                    self,
                ).active.unwrap().pending_newer
                &&& final(self).bootstrap == old(self).bootstrap
                &&& final(self).client_state == old(self).client_state
                &&& final(self).authorized == old(self).authorized
                &&& final(self).last_failure == old(self).last_failure
                &&& (step.1 is Some ==> r == Some(
                    HttpRequest::RequestTimeline { key, max_id: step.1.unwrap().max_id },
                ))
                &&& (step.1 is None ==> r is None)
            }),
    {
        if !near_end {
            return None;
        }
        let cur = self.active.take();
        match cur {
            None => {
                self.active = None;
                None
            },
            Some(mut a) => {
                a.timelines.mark_stale(key);
                let cmd = a.timelines.load(key);
                self.active = Some(a);
                match cmd {
                    None => None,
                    Some(c) => Some(HttpRequest::RequestTimeline { key, max_id: c.max_id }),
                }
            },
        }
    }

    /// Apply one polled response to the presentation state, and say
    /// which requests to send in turn.
    pub fn handle_http_response(&mut self, res: HttpResponse) -> (out: Vec<HttpRequest>)
        ensures
            (match res {
                HttpResponse::AuthURLReady { url } => {
                    &&& final(self).bootstrap.auth_url matches Some(u) && u.0@ == url@
                    &&& final(self).bootstrap.base_url == old(self).bootstrap.base_url
                    &&& final(self).bootstrap.instance_type == old(self).bootstrap.instance_type
                    &&& final(self).bootstrap.callback_addr == old(self).bootstrap.callback_addr
                    &&& final(self).authorized == old(self).authorized
                    &&& final(self).active == old(self).active
                    &&& out@.len() == 1 && (out@[0] matches HttpRequest::OpenExternalURL {
                        url: u,
                    } && u@ == url@)
                },
                HttpResponse::TokenObtained => {
                    &&& final(self).authorized
                    &&& final(self).active == old(self).active
                    &&& final(self).bootstrap == old(self).bootstrap
                    &&& out@ =~= seq![HttpRequest::RequestSelfAccount]
                },
                HttpResponse::SelfAccount { account } => {
                    &&& final(self).active matches Some(a) && a.account == account
                    &&& (old(self).active is Some ==> ({
                        let oa = old(self).active.unwrap();
                        let na = final(self).active.unwrap();
                        na.timelines@ == oa.timelines@ && na.current_timeline
                            == oa.current_timeline
                    }))
                    &&& (old(self).active is None ==> ({
                        let a = final(self).active.unwrap();
                        a.current_timeline is Home && a.timelines@.home is None
                            && a.timelines@.public_feed is None && a.timelines@.local_feed is None
                            && a.pending_newer is None
                    }))
                    &&& final(self).authorized == old(self).authorized
                    &&& out@.len() == 0
                },
                HttpResponse::TimelineLoaded { key, items } => {
                    &&& out@.len() == 0
                    &&& (old(self).active is None ==> *final(self) == *old(self))
                    &&& (old(self).active is Some ==> ({
                        let oa = old(self).active.unwrap();
                        let step = complete_step(oa.timelines@, key, items@);
                        &&& final(self).active matches Some(a) && a.timelines@ == step.0
                            && a.account == oa.account && a.current_timeline == oa.current_timeline
                        &&& (step.1 ==> final(self).last_failure == old(self).last_failure)
                        &&& (!step.1 ==> (final(self).last_failure matches Some(n) && n.kind
                            is TimelineFetch && n.reason is Unsupported))
                    }))
                },
                HttpResponse::CatchUpCount { key, count } => {
                    &&& out@.len() == 0
                    &&& (old(self).active is None ==> *final(self) == *old(self))
                    &&& (old(self).active is Some ==> ({
                        let oa = old(self).active.unwrap();
                        final(self).active matches Some(a) && a.pending_newer == Some((key, count))
                            && a.timelines@ == oa.timelines@
                    }))
                },
                HttpResponse::TimelineUnavailable { key, reason, message } => {
                    &&& out@.len() == 0
                    &&& final(self).last_failure matches Some(n) && n.kind is TimelineFetch
                        && n.reason == reason && n.message@ == message@
                    &&& (old(self).active is Some ==> (final(self).active matches Some(a)
                        && a.timelines@ == abort_step(old(self).active.unwrap().timelines@, key)))
                    &&& (old(self).active is None ==> final(self).active is None)
                },
                HttpResponse::OperationSucceeded { kind: _ } => {
                    &&& out@.len() == 0
                    &&& final(self).last_failure is None
                    &&& final(self).active == old(self).active
                    &&& final(self).authorized == old(self).authorized
                },
                HttpResponse::OperationFailed { kind, reason, message } => {
                    &&& out@.len() == 0
                    &&& final(self).last_failure matches Some(n) && n.kind == kind && n.reason
                        == reason && n.message@ == message@
                    &&& final(self).active == old(self).active
                    &&& final(self).authorized == old(self).authorized
                },
            }),
    {
        let mut out: Vec<HttpRequest> = Vec::new();
        match res {
            HttpResponse::AuthURLReady { url } => {
                let for_browser = url.clone();
                self.bootstrap.auth_url = Some(AuthorizationURL(url));
                out.push(HttpRequest::OpenExternalURL { url: for_browser });
            },
            HttpResponse::TokenObtained => {
                self.authorized = true;
                out.push(HttpRequest::RequestSelfAccount);
                proof {
                    assert(out@ =~= seq![HttpRequest::RequestSelfAccount]);
                }
            },
            HttpResponse::SelfAccount { account } => {
                let cur = self.active.take();
                match cur {
                    Some(mut a) => {
                        a.account = account;
                        self.active = Some(a);
                    },
                    None => {
                        self.active = Some(
                            ActiveState {
                                account,
                                current_timeline: Timeline::Home,
                                timelines: TimelineCache::new(),
                                pending_newer: None,
                            },
                        );
                    },
                }
            },
            HttpResponse::TimelineLoaded { key, items } => {
                let cur = self.active.take();
                match cur {
                    Some(mut a) => {
                        let accepted = a.timelines.complete_fetch(key, items);
                        self.active = Some(a);
                        if !accepted {
                            self.last_failure = Some(
                                FailureNote {
                                    kind: OperationKind::TimelineFetch,
                                    reason: FailureKind::Unsupported,
                                    message: String::from_str(
                                        "page was not older than the stored timeline",
                                    ),
                                },
                            );
                        }
                    },
                    None => {
                        self.active = None;
                    },
                }
            },
            HttpResponse::CatchUpCount { key, count } => {
                let cur = self.active.take();
                match cur {
                    Some(mut a) => {
                        a.pending_newer = Some((key, count));
                        self.active = Some(a);
                    },
                    None => {
                        self.active = None;
                    },
                }
            },
            HttpResponse::TimelineUnavailable { key, reason, message } => {
                let cur = self.active.take();
                match cur {
                    Some(mut a) => {
                        a.timelines.abort_fetch(key);
                        self.active = Some(a);
                    },
                    None => {
                        self.active = None;
                    },
                }
                self.last_failure = Some(
                    FailureNote { kind: OperationKind::TimelineFetch, reason, message },
                );
            },
            HttpResponse::OperationSucceeded { kind: _ } => {
                self.last_failure = None;
            },
            HttpResponse::OperationFailed { kind, reason, message } => {
                self.last_failure = Some(FailureNote { kind, reason, message });
            },
        }
        out
    }
}

} // verus!
