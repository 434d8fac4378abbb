//! Core engine of a fediverse desktop client: credential persistence,
//! the OAuth authorization-code state machine, the request/response
//! bridge between the presentation loop and the network worker, and the
//! timeline pagination cache.
//!
//! The engine performs no I/O itself. A thin shell owns the sockets,
//! the files and the real API client; every decision — what to persist,
//! which capability call to make, how a fetched page extends a timeline
//! — is taken here, on plain values, under the contracts the modules
//! state:
//!
//! - `creds`: the registration and token records and their canonical
//!   persisted documents, with the round-trip laws;
//! - `auth` is split between `dispatch` (the login state machine the
//!   worker drives) and `frontend` (the login form's state);
//! - `bridge`: the two FIFO message channels and their ordering law;
//! - `timeline`: the per-timeline fetch state and its guard;
//! - `backend`: the cursor model of the paginated remote timeline and
//!   the pagination-completeness laws;
//! - `json` and `text`: the character-level machinery the above share.

pub mod backend;
pub mod bridge;
pub mod creds;
pub mod dispatch;
pub mod frontend;
pub mod json;
pub mod text;
pub mod timeline;

use vstd::prelude::*;

verus! {

/// The fediverse server family an instance runs, which selects the API
/// dialect the worker speaks.
#[derive(Clone, Copy, Debug, PartialEq, Eq, Structural)]
pub enum InstanceKind {
    Mastodon,
    Pleroma,
    Firefish,
    Gotosocial,
    Friendica,
}

} // verus!
