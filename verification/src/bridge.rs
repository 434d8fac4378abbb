//! The request/response bridge between the single-threaded presentation
//! loop and the network worker: the two message vocabularies, the two
//! FIFO queues, and the completion-ordering law. There is no
//! correlation id: responses are matched by message kind (and timeline
//! key), and arrive in completion order, not submission order.

use vstd::prelude::*;

use crate::InstanceKind;
use crate::timeline::{StatusRecord, Timeline};

verus! {

/// Who may see a posted status.
#[derive(Clone, Copy, Debug, PartialEq, Eq, Structural)]
pub enum Visibility {
    Public,
    Unlisted,
    Private,
    Direct,
}

/// A status composed for posting: body, optional content warning,
/// visibility, and an optional quoted status.
#[derive(Debug)]
pub struct Content {
    pub content: String,
    pub cw: Option<String>,
    pub visibility: Visibility,
    pub quoting: Option<u64>,
}

/// The relationship operations the client can ask for.
#[derive(Clone, Copy, Debug, PartialEq, Eq, Structural)]
pub enum RelationshipActionKind {
    Follow,
    Unfollow,
    Block,
    Unblock,
    Mute,
    Unmute,
    AcceptFollowRequest,
    DenyFollowRequest,
}

/// The reactions the client can apply to a single status.
#[derive(Clone, Copy, Debug, PartialEq, Eq, Structural)]
pub enum StatusActionKind {
    Favourite,
    Boost,
    Bookmark,
    Unbookmark,
}

/// What the engine keeps of the signed-in account.
#[derive(Debug)]
pub struct AccountRecord {
    pub id: u64,
    pub acct: String,
    pub display_name: String,
    pub avatar: String,
}

/// The loopback address the OAuth callback listener binds to, and which
/// the registered redirect URI must name exactly.
#[derive(Clone, Copy, Debug, PartialEq, Eq, Structural)]
pub struct CallbackAddr {
    pub o1: u8,
    pub o2: u8,
    pub o3: u8,
    pub o4: u8,
    pub port: u16,
}

/// The operation a response reports on.
#[derive(Clone, Copy, Debug, PartialEq, Eq, Structural)]
pub enum OperationKind {
    Configure,
    Login,
    OpenUrl,
    SelfAccount,
    TimelineFetch,
    CatchUp,
    Post,
    StatusAction,
    Relationship,
    Markers,
}

/// Why an operation failed.
#[derive(Clone, Copy, Debug, PartialEq, Eq, Structural)]
pub enum FailureKind {
    /// The remote instance could not be reached, or answered with an
    /// HTTP failure.
    Transport,
    /// The credentials or the authorization code were rejected.
    Auth,
    /// Persisted or in-memory state was missing or not usable.
    State,
    /// The operation needs authentication and no token is present.
    Precondition,
    /// The remote answered with a shape this client does not model.
    Unsupported,
}

/// A request from the presentation loop to the worker.
#[derive(Debug)]
pub enum HttpRequest {
    Configure { base_url: String, instance_type: InstanceKind },
    BeginLogin { addr: CallbackAddr },
    OpenExternalURL { url: String },
    RequestSelfAccount,
    RequestTimeline { key: Timeline, max_id: Option<u64> },
    CatchUpTimeline { key: Timeline, since_id: u64 },
    PostStatus { content: Content, reply_to: Option<u64> },
    StatusAction { kind: StatusActionKind, status: u64 },
    RelationshipAction { kind: RelationshipActionKind, account: u64 },
    SaveMarkers { home_last: u64, notifications_last: u64 },
}

/// A response from the worker to the presentation loop.
#[derive(Debug)]
pub enum HttpResponse {
    AuthURLReady { url: String },
    TokenObtained,
    SelfAccount { account: AccountRecord },
    TimelineLoaded { key: Timeline, items: Vec<StatusRecord> },
    CatchUpCount { key: Timeline, count: usize },
    TimelineUnavailable { key: Timeline, reason: FailureKind, message: String },
    OperationSucceeded { kind: OperationKind },
    OperationFailed { kind: OperationKind, reason: FailureKind, message: String },
}

/// The head of a queue, if any.
pub open spec fn queue_front<T>(q: Seq<T>) -> Option<T> {
    if q.len() == 0 {
        None
    } else {
        Some(q[0])
    }
}

/// A queue with its head removed; the empty queue stays empty.
pub open spec fn queue_rest<T>(q: Seq<T>) -> Seq<T> {
    if q.len() == 0 {
        q
    } else {
        q.subrange(1, q.len() as int)
    }
}

/// The two unidirectional FIFO channels between the presentation loop
/// and the worker. In the running program each side holds one end; the
/// shell carries these queues over its thread boundary.
#[derive(Debug)]
pub struct Bridge {
    pub requests: Vec<HttpRequest>,
    pub responses: Vec<HttpResponse>,
}

impl Bridge {
    /// A bridge with both channels empty.
    pub fn new() -> (b: Bridge)
        ensures
            b.requests@ == Seq::<HttpRequest>::empty(),
            b.responses@ == Seq::<HttpResponse>::empty(),
    {
        Bridge { requests: Vec::new(), responses: Vec::new() }
    }

    /// Presentation side: enqueue a request. Never blocks and never
    /// reorders what was already queued.
    pub fn send_request(&mut self, req: HttpRequest)
        ensures
            final(self).requests@ == old(self).requests@.push(req),
            final(self).responses@ == old(self).responses@,
    {
        self.requests.push(req);
    }

    /// Worker side: dequeue the oldest request, if one is waiting. The
    /// shell blocks the worker until one is; an empty answer here means
    /// only that the queue is drained.
    pub fn next_request(&mut self) -> (r: Option<HttpRequest>)
        ensures
            r == queue_front(old(self).requests@),
            final(self).requests@ == queue_rest(old(self).requests@),
            final(self).responses@ == old(self).responses@,
    {
        if self.requests.len() == 0 {
            None
        } else {
            Some(self.requests.remove(0))
        }
    }

    /// Worker side: enqueue a response the moment its request
    /// completes; this is what fixes the observed order.
    pub fn push_response(&mut self, res: HttpResponse)
        ensures
            final(self).responses@ == old(self).responses@.push(res),
            final(self).requests@ == old(self).requests@,
    {
        self.responses.push(res);
    }

    /// Presentation side: poll for at most one response per redraw
    /// tick. Never blocks; an empty answer is not an error.
    pub fn poll_response(&mut self) -> (r: Option<HttpResponse>)
        ensures
            r == queue_front(old(self).responses@),
            final(self).responses@ == queue_rest(old(self).responses@),
            final(self).requests@ == old(self).requests@,
    {
        if self.responses.len() == 0 {
            None
        } else {
            Some(self.responses.remove(0))
        }
    }
}

/// Completion-ordering law: the response channel is a plain FIFO, so
/// when the worker finishes two requests — whatever order they were
/// submitted in — and enqueues `first_done` before `second_done` on a
/// drained channel, the presentation loop's next two polls observe
/// `first_done` then `second_done`, and the channel is drained again.
pub proof fn lemma_completion_order(
    pending: Seq<HttpResponse>,
    first_done: HttpResponse,
    second_done: HttpResponse,
)
    requires
        pending.len() == 0,
    ensures
        ({
            let q = pending.push(first_done).push(second_done);
            &&& queue_front(q) == Some(first_done)
            &&& queue_front(queue_rest(q)) == Some(second_done)
            &&& queue_rest(queue_rest(q)).len() == 0
        }),
{
    let q = pending.push(first_done).push(second_done);
    assert(q[0] == first_done);
    assert(queue_rest(q)[0] == second_done);
}

} // verus!
