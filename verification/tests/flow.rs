//! The OAuth flow against a stub backend, the unauthenticated guard,
//! and the presentation loop's response handling.

use dakko_core::bridge::{
    CallbackAddr, Content, FailureKind, HttpRequest, HttpResponse, OperationKind,
    RelationshipActionKind, StatusActionKind, Visibility,
};
use dakko_core::creds::{save_state, AuthState, ClientState, TokenData};
use dakko_core::dispatch::{
    callback_ack, login_state, ApiCall, ApiOutcome, AppState, CallbackQuery, LoginState, Step,
};
use dakko_core::frontend::MainApp;
use dakko_core::timeline::{StatusRecord, Timeline};
use dakko_core::InstanceKind;

fn addr() -> CallbackAddr {
    CallbackAddr { o1: 127, o2: 0, o3: 0, o4: 1, port: 9119 }
}

fn stub_token() -> TokenData {
    TokenData {
        access_token: "stub-access".to_string(),
        token_type: "Bearer".to_string(),
        scope: "read write follow".to_string(),
    }
}

fn logged_in_state() -> AppState {
    let mut state = AppState::new(addr());
    state.handle(HttpRequest::Configure {
        base_url: "https://example.social".to_string(),
        instance_type: InstanceKind::Pleroma,
    });
    let register = match state.handle(HttpRequest::BeginLogin { addr: addr() }) {
        Step::Call(call) => call,
        other => panic!("login should register the app, got {:?}", other),
    };
    state.settle(
        register,
        ApiOutcome::Registered {
            client_id: "stub-id".to_string(),
            client_secret: "stub-secret".to_string(),
            url: Some("https://example.social/oauth/authorize?x=1".to_string()),
        },
    );
    let exchange = state
        .authorize(CallbackQuery { code: "stub-code".to_string() })
        .expect("callback while awaiting should start the exchange");
    state.settle(exchange, ApiOutcome::TokenGranted { token: stub_token() });
    state
}

#[test]
fn auth_flow_happy_path_persists_the_stub_credentials() {
    let mut state = AppState::new(addr());
    assert!(matches!(login_state(&state), LoginState::LoggedOut));

    // Unconfigured -> Configured.
    let step = state.handle(HttpRequest::Configure {
        base_url: "https://example.social".to_string(),
        instance_type: InstanceKind::Pleroma,
    });
    assert!(matches!(
        step,
        Step::Respond(HttpResponse::OperationSucceeded { kind: OperationKind::Configure })
    ));

    // Configured -> Registering: the app registration call.
    let register = match state.handle(HttpRequest::BeginLogin { addr: addr() }) {
        Step::Call(call) => call,
        other => panic!("login should register the app, got {:?}", other),
    };
    match &register {
        ApiCall::RegisterApp { client_name, scopes, redirect_uri } => {
            assert_eq!(client_name, "dakko");
            assert_eq!(scopes.len(), 3);
            assert_eq!(scopes[0], "read");
            assert_eq!(scopes[1], "write");
            assert_eq!(scopes[2], "follow");
            assert_eq!(redirect_uri, "http://127.0.0.1:9119/");
        }
        other => panic!("expected an app registration, got {:?}", other),
    }

    // A second login attempt while one is underway is rejected.
    assert!(matches!(
        state.handle(HttpRequest::BeginLogin { addr: addr() }),
        Step::Respond(HttpResponse::OperationFailed { kind: OperationKind::Login, .. })
    ));

    // Registering -> AwaitingCallback: the stub returns fixed values.
    let settled = state.settle(
        register,
        ApiOutcome::Registered {
            client_id: "stub-id".to_string(),
            client_secret: "stub-secret".to_string(),
            url: Some("https://example.social/oauth/authorize?x=1".to_string()),
        },
    );
    match settled.response {
        HttpResponse::AuthURLReady { url } => {
            assert_eq!(url, "https://example.social/oauth/authorize?x=1");
        }
        other => panic!("expected the authorization URL, got {:?}", other),
    }
    assert!(settled.persist.is_none());

    // The browser hits the local endpoint; the code is trimmed.
    let exchange = state
        .authorize(CallbackQuery { code: "  stub-code \n".to_string() })
        .expect("callback while awaiting should start the exchange");
    match &exchange {
        ApiCall::ExchangeCode { client_id, client_secret, code } => {
            assert_eq!(client_id, "stub-id");
            assert_eq!(client_secret, "stub-secret");
            assert_eq!(code, "stub-code");
        }
        other => panic!("expected a code exchange, got {:?}", other),
    }
    assert_eq!(callback_ack(), "authorisation complete");

    // AwaitingCallback -> Authorized: a token is obtained and persisted.
    let settled = state.settle(exchange, ApiOutcome::TokenGranted { token: stub_token() });
    assert!(matches!(settled.response, HttpResponse::TokenObtained));
    let (client_doc, auth_doc) = settled.persist.expect("the exchange persists both documents");
    let expected = save_state(
        &ClientState {
            client_id: "stub-id".to_string(),
            client_secret: "stub-secret".to_string(),
            base_url: "https://example.social".to_string(),
            instance_type: InstanceKind::Pleroma,
        },
        &AuthState { token: stub_token() },
    );
    assert_eq!(client_doc, expected.0);
    assert_eq!(auth_doc, expected.1);

    assert!(state.has_logged_in());
    assert!(matches!(login_state(&state), LoginState::LoggedIn));
}

#[test]
fn setup_restores_a_persisted_session() {
    let (client_doc, auth_doc) = save_state(
        &ClientState {
            client_id: "stub-id".to_string(),
            client_secret: "stub-secret".to_string(),
            base_url: "https://example.social".to_string(),
            instance_type: InstanceKind::Firefish,
        },
        &AuthState { token: stub_token() },
    );
    let mut state = AppState::new(addr());
    state.setup(Some(&client_doc), Some(&auth_doc));
    assert!(state.has_logged_in());
    let handle = state.client.as_ref().expect("a client handle is built");
    assert_eq!(handle.base_url, "https://example.social");
    assert_eq!(handle.instance_type, InstanceKind::Firefish);
    assert_eq!(handle.token.as_deref(), Some("stub-access"));

    let mut cold = AppState::new(addr());
    cold.setup(None, None);
    assert!(!cold.has_logged_in());
    assert!(cold.client.is_none());
}

#[test]
fn registration_failure_returns_to_configured_and_is_retryable() {
    let mut state = AppState::new(addr());
    state.handle(HttpRequest::Configure {
        base_url: "https://example.social".to_string(),
        instance_type: InstanceKind::Pleroma,
    });
    let register = match state.handle(HttpRequest::BeginLogin { addr: addr() }) {
        Step::Call(call) => call,
        other => panic!("login should register the app, got {:?}", other),
    };
    let settled = state.settle(
        register,
        ApiOutcome::CallFailed {
            reason: FailureKind::Transport,
            message: "connection refused".to_string(),
        },
    );
    match settled.response {
        HttpResponse::OperationFailed { kind, reason, message } => {
            assert_eq!(kind, OperationKind::Login);
            assert_eq!(reason, FailureKind::Transport);
            assert_eq!(message, "connection refused");
        }
        other => panic!("expected a failure response, got {:?}", other),
    }
    // Retryable: a fresh login attempt registers again.
    assert!(matches!(
        state.handle(HttpRequest::BeginLogin { addr: addr() }),
        Step::Call(ApiCall::RegisterApp { .. })
    ));
}

#[test]
fn registration_without_a_url_is_an_unsupported_shape() {
    let mut state = AppState::new(addr());
    state.handle(HttpRequest::Configure {
        base_url: "https://example.social".to_string(),
        instance_type: InstanceKind::Gotosocial,
    });
    let register = match state.handle(HttpRequest::BeginLogin { addr: addr() }) {
        Step::Call(call) => call,
        other => panic!("login should register the app, got {:?}", other),
    };
    let settled = state.settle(
        register,
        ApiOutcome::Registered {
            client_id: "stub-id".to_string(),
            client_secret: "stub-secret".to_string(),
            url: None,
        },
    );
    assert!(matches!(
        settled.response,
        HttpResponse::OperationFailed {
            kind: OperationKind::Login,
            reason: FailureKind::Unsupported,
            ..
        }
    ));
    // Back to Configured: the login can be retried.
    assert!(matches!(
        state.handle(HttpRequest::BeginLogin { addr: addr() }),
        Step::Call(ApiCall::RegisterApp { .. })
    ));
}

#[test]
fn exchange_failure_keeps_the_credentials_out_and_is_retryable() {
    let mut state = AppState::new(addr());
    state.handle(HttpRequest::Configure {
        base_url: "https://example.social".to_string(),
        instance_type: InstanceKind::Pleroma,
    });
    let register = match state.handle(HttpRequest::BeginLogin { addr: addr() }) {
        Step::Call(call) => call,
        other => panic!("login should register the app, got {:?}", other),
    };
    state.settle(
        register,
        ApiOutcome::Registered {
            client_id: "stub-id".to_string(),
            client_secret: "stub-secret".to_string(),
            url: Some("https://example.social/oauth/authorize?x=1".to_string()),
        },
    );
    let exchange = state
        .authorize(CallbackQuery { code: "bad-code".to_string() })
        .expect("callback while awaiting should start the exchange");
    let settled = state.settle(
        exchange,
        ApiOutcome::CallFailed {
            reason: FailureKind::Auth,
            message: "invalid authorization code".to_string(),
        },
    );
    assert!(matches!(
        settled.response,
        HttpResponse::OperationFailed { kind: OperationKind::Login, reason: FailureKind::Auth, .. }
    ));
    assert!(settled.persist.is_none());
    assert!(!state.has_logged_in());
    assert!(matches!(
        state.handle(HttpRequest::BeginLogin { addr: addr() }),
        Step::Call(ApiCall::RegisterApp { .. })
    ));
}

#[test]
fn callback_out_of_turn_is_a_state_error() {
    let mut state = AppState::new(addr());
    let err = state
        .authorize(CallbackQuery { code: "whatever".to_string() })
        .expect_err("no login is awaiting a callback");
    assert!(matches!(
        err,
        HttpResponse::OperationFailed { kind: OperationKind::Login, reason: FailureKind::State, .. }
    ));
}

#[test]
fn unauthenticated_operations_fail_without_any_call() {
    let mut state = AppState::new(addr());
    let requests: Vec<(HttpRequest, OperationKind)> = vec![
        (HttpRequest::RequestSelfAccount, OperationKind::SelfAccount),
        (
            HttpRequest::RequestTimeline { key: Timeline::Home, max_id: None },
            OperationKind::TimelineFetch,
        ),
        (
            HttpRequest::CatchUpTimeline { key: Timeline::Home, since_id: 5 },
            OperationKind::CatchUp,
        ),
        (
            HttpRequest::PostStatus {
                content: Content {
                    content: "hi".to_string(),
                    cw: None,
                    visibility: Visibility::Public,
                    quoting: None,
                },
                reply_to: None,
            },
            OperationKind::Post,
        ),
        (
            HttpRequest::RelationshipAction {
                kind: RelationshipActionKind::Follow,
                account: 7,
            },
            OperationKind::Relationship,
        ),
        (
            HttpRequest::SaveMarkers { home_last: 1, notifications_last: 2 },
            OperationKind::Markers,
        ),
    ];
    for (req, expected_kind) in requests {
        match state.handle(req) {
            Step::Respond(HttpResponse::OperationFailed { kind, reason, .. }) => {
                assert_eq!(kind, expected_kind);
                assert_eq!(reason, FailureKind::Precondition);
            }
            other => panic!("expected a precondition failure, got {:?}", other),
        }
    }
}

#[test]
fn authenticated_requests_map_to_their_calls() {
    let mut state = logged_in_state();
    match state.handle(HttpRequest::RequestTimeline { key: Timeline::Home, max_id: Some(9) }) {
        Step::Call(ApiCall::FetchTimelinePage { key, max_id, limit }) => {
            assert_eq!(key, Timeline::Home);
            assert_eq!(max_id, Some(9));
            assert_eq!(limit, 25);
        }
        other => panic!("expected a page fetch, got {:?}", other),
    }
    match state.handle(HttpRequest::PostStatus {
        content: Content {
            content: "spoilered".to_string(),
            cw: Some("cw".to_string()),
            visibility: Visibility::Unlisted,
            quoting: Some(3),
        },
        reply_to: Some(12),
    }) {
        Step::Call(ApiCall::SubmitStatus { content, cw, sensitive, visibility, reply_to, quote }) => {
            assert_eq!(content, "spoilered");
            assert_eq!(cw.as_deref(), Some("cw"));
            assert!(sensitive);
            assert_eq!(visibility, Visibility::Unlisted);
            assert_eq!(reply_to, Some(12));
            assert_eq!(quote, Some(3));
        }
        other => panic!("expected a post, got {:?}", other),
    }
    match state.handle(HttpRequest::PostStatus {
        content: Content {
            content: "plain".to_string(),
            cw: None,
            visibility: Visibility::Public,
            quoting: None,
        },
        reply_to: None,
    }) {
        Step::Call(ApiCall::SubmitStatus { sensitive, .. }) => assert!(!sensitive),
        other => panic!("expected a post, got {:?}", other),
    }
    match state.handle(HttpRequest::OpenExternalURL { url: "https://example.social".to_string() })
    {
        Step::OpenUrl(url) => assert_eq!(url, "https://example.social"),
        other => panic!("expected a browser launch, got {:?}", other),
    }
}

#[test]
fn settle_maps_outcomes_to_responses() {
    let mut state = logged_in_state();
    let settled = state.settle(
        ApiCall::CountNewer { key: Timeline::Home, since_id: 4 },
        ApiOutcome::PageLoaded {
            items: vec![
                StatusRecord { id: 7, author: "a".to_string(), content: "x".to_string() },
                StatusRecord { id: 6, author: "b".to_string(), content: "y".to_string() },
                StatusRecord { id: 5, author: "c".to_string(), content: "z".to_string() },
            ],
        },
    );
    assert!(matches!(
        settled.response,
        HttpResponse::CatchUpCount { key: Timeline::Home, count: 3 }
    ));

    let settled = state.settle(
        ApiCall::SubmitStatus {
            content: "hi".to_string(),
            cw: None,
            sensitive: false,
            visibility: Visibility::Public,
            reply_to: None,
            quote: None,
        },
        ApiOutcome::Scheduled,
    );
    assert!(matches!(
        settled.response,
        HttpResponse::OperationFailed {
            kind: OperationKind::Post,
            reason: FailureKind::Unsupported,
            ..
        }
    ));

    let settled = state.settle(
        ApiCall::FetchTimelinePage { key: Timeline::Local, max_id: None, limit: 25 },
        ApiOutcome::CallFailed {
            reason: FailureKind::Transport,
            message: "timed out".to_string(),
        },
    );
    assert!(matches!(
        settled.response,
        HttpResponse::TimelineUnavailable {
            key: Timeline::Local,
            reason: FailureKind::Transport,
            ..
        }
    ));

    let settled = state.settle(
        ApiCall::Relationship { kind: RelationshipActionKind::Block, account: 4 },
        ApiOutcome::RelationshipChanged,
    );
    assert!(matches!(
        settled.response,
        HttpResponse::OperationSucceeded { kind: OperationKind::Relationship }
    ));

    let settled = state.settle(
        ApiCall::ReactToStatus { kind: StatusActionKind::Favourite, status: 11 },
        ApiOutcome::StatusUpdated,
    );
    assert!(matches!(
        settled.response,
        HttpResponse::OperationSucceeded { kind: OperationKind::StatusAction }
    ));
}

#[test]
fn status_reactions_are_guarded_and_mapped() {
    let mut cold = AppState::new(addr());
    match cold.handle(HttpRequest::StatusAction { kind: StatusActionKind::Boost, status: 3 }) {
        Step::Respond(HttpResponse::OperationFailed { kind, reason, .. }) => {
            assert_eq!(kind, OperationKind::StatusAction);
            assert_eq!(reason, FailureKind::Precondition);
        }
        other => panic!("expected a precondition failure, got {:?}", other),
    }
    let mut state = logged_in_state();
    match state.handle(HttpRequest::StatusAction { kind: StatusActionKind::Boost, status: 3 }) {
        Step::Call(ApiCall::ReactToStatus { kind: StatusActionKind::Boost, status: 3 }) => {}
        other => panic!("expected a reaction call, got {:?}", other),
    }
}

#[test]
fn presentation_loop_drives_login_and_timeline() {
    let (mut app, first) = MainApp::new(None, false);
    assert!(first.is_none());
    assert!(!app.is_logged_in());
    assert!(!app.has_active_state());

    // The worker announces the authorization URL: remember it and open
    // the browser.
    let out = app.handle_http_response(HttpResponse::AuthURLReady {
        url: "https://example.social/oauth/authorize?x=1".to_string(),
    });
    assert_eq!(out.len(), 1);
    assert!(matches!(out[0], HttpRequest::OpenExternalURL { .. }));
    assert_eq!(
        app.bootstrap.auth_url.as_ref().map(|u| u.0.as_str()),
        Some("https://example.social/oauth/authorize?x=1")
    );

    // The token arrives: ask for the account.
    let out = app.handle_http_response(HttpResponse::TokenObtained);
    assert!(app.is_logged_in());
    assert_eq!(out.len(), 1);
    assert!(matches!(out[0], HttpRequest::RequestSelfAccount));

    // The account arrives: the signed-in state appears.
    let out = app.handle_http_response(HttpResponse::SelfAccount {
        account: dakko_core::bridge::AccountRecord {
            id: 1,
            acct: "ada@example.social".to_string(),
            display_name: "Ada".to_string(),
            avatar: "https://example.social/a.png".to_string(),
        },
    });
    assert!(out.is_empty());
    assert!(app.has_active_state());

    // First render tick asks for the home timeline, once.
    let req = app.load_timeline(Timeline::Home).expect("first load fetches");
    assert!(matches!(req, HttpRequest::RequestTimeline { key: Timeline::Home, max_id: None }));
    assert!(app.load_timeline(Timeline::Home).is_none());

    // The page arrives and is appended.
    let out = app.handle_http_response(HttpResponse::TimelineLoaded {
        key: Timeline::Home,
        items: vec![
            StatusRecord { id: 30, author: "a".to_string(), content: "x".to_string() },
            StatusRecord { id: 20, author: "b".to_string(), content: "y".to_string() },
        ],
    });
    assert!(out.is_empty());
    // Up to date now; only a scroll near the end refills, with the
    // cursor at the last stored id.
    assert!(app.load_timeline(Timeline::Home).is_none());
    assert!(app.refill(Timeline::Home, false).is_none());
    let req = app.refill(Timeline::Home, true).expect("scrolling refills");
    assert!(matches!(
        req,
        HttpRequest::RequestTimeline { key: Timeline::Home, max_id: Some(20) }
    ));

    // A failed fetch clears the in-flight flag and is reported.
    let out = app.handle_http_response(HttpResponse::TimelineUnavailable {
        key: Timeline::Home,
        reason: FailureKind::Transport,
        message: "timed out".to_string(),
    });
    assert!(out.is_empty());
    let note = app.last_failure.as_ref().expect("the failure is kept for display");
    assert_eq!(note.reason, FailureKind::Transport);
    let req = app.refill(Timeline::Home, true).expect("the guard is released");
    assert!(matches!(
        req,
        HttpRequest::RequestTimeline { key: Timeline::Home, max_id: Some(20) }
    ));

    // A catch-up count is kept for the new-posts indicator.
    let out = app.handle_http_response(HttpResponse::CatchUpCount {
        key: Timeline::Home,
        count: 5,
    });
    assert!(out.is_empty());
    assert_eq!(
        app.active.as_ref().and_then(|a| a.pending_newer),
        Some((Timeline::Home, 5))
    );
}

#[test]
fn bootstrap_submit_configures_then_logs_in() {
    let (mut app, _) = MainApp::new(None, false);
    app.bootstrap.base_url = "https://other.example".to_string();
    app.bootstrap.instance_type = InstanceKind::Friendica;
    let out = dakko_core::frontend::BootstrapComponent::submit(&app);
    assert_eq!(out.len(), 2);
    match &out[0] {
        HttpRequest::Configure { base_url, instance_type } => {
            assert_eq!(base_url, "https://other.example");
            assert_eq!(*instance_type, InstanceKind::Friendica);
        }
        other => panic!("expected a configure request, got {:?}", other),
    }
    assert!(matches!(out[1], HttpRequest::BeginLogin { addr: CallbackAddr { port: 9119, .. } }));
}

#[test]
fn composed_reply_carries_its_target() {
    let req = dakko_core::frontend::PostableContent {
        content: "hello back".to_string(),
        reply_id: Some(42),
        visibility: Visibility::Private,
    }
    .into_request();
    match req {
        HttpRequest::PostStatus { content, reply_to } => {
            assert_eq!(content.content, "hello back");
            assert_eq!(content.visibility, Visibility::Private);
            assert!(content.cw.is_none());
            assert!(content.quoting.is_none());
            assert_eq!(reply_to, Some(42));
        }
        other => panic!("expected a post request, got {:?}", other),
    }
}

#[test]
fn content_component_keeps_its_text() {
    let c = dakko_core::frontend::ContentComponent::new("<p>hello</p>".to_string());
    assert_eq!(c.content, "<p>hello</p>");
}
