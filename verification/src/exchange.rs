//! What an operation asks of the cache and of the durable store, and what
//! they answer. The operations decide; the caller performs each request and
//! hands back the reply.

use crate::error::{StoreFailure, StoreFailureView};
use crate::models::{text_of, StoredUrl, StoredUrlView};
use crate::policy::DestructionMode;
use vstd::prelude::*;

verus! {

/// A request to the cache or to the durable store.
#[derive(Debug, Clone, PartialEq, Eq)]
pub enum Request {
    /// Look the identifier up in the cache.
    CacheGet { id: String },
    /// Put the destination in the cache, to be dropped after the given time.
    CacheSet { id: String, destination: String, ttl_seconds: u64 },
    /// Ask the store whether a record with this identifier exists.
    Exists { id: String },
    /// Insert the record, unless its identifier is taken.
    Insert { record: StoredUrl },
    /// Read the record with this identifier.
    Fetch { id: String },
    /// Replace the policy and the read counter of the record in one atomic
    /// step, on condition that the stored policy still equals `expected`.
    UpdatePolicy {
        id: String,
        expected: DestructionMode,
        policy: DestructionMode,
        click_count: Option<i32>,
    },
    /// Replace the stored destination of the record.
    Overwrite { id: String, destination: String },
    /// Delete the record.
    Delete { id: String },
}

/// An answer of the cache or of the durable store.
#[derive(Debug, Clone, PartialEq, Eq)]
pub enum Reply {
    /// The cached destination, or `None` where the cache holds none.
    CacheValue(Option<String>),
    /// The cache took the entry.
    CacheStored,
    /// The cache failed.
    CacheFailed,
    /// Whether the record exists.
    Exists(bool),
    /// The record was inserted.
    Inserted,
    /// The record was not inserted because its identifier is taken.
    Duplicate,
    /// The record that was read, or `None` where there is none.
    Record(Option<StoredUrl>),
    /// Whether the conditional update found its row and changed it.
    Updated(bool),
    /// The destination was replaced.
    Overwritten,
    /// The record was deleted.
    Deleted,
    /// The store failed.
    StoreFailed(StoreFailure),
}

/// Mathematical value of a [`Request`].
pub enum RequestView {
    CacheGet { id: Seq<char> },
    CacheSet { id: Seq<char>, destination: Seq<char>, ttl_seconds: u64 },
    Exists { id: Seq<char> },
    Insert { record: StoredUrlView },
    Fetch { id: Seq<char> },
    UpdatePolicy {
        id: Seq<char>,
        expected: DestructionMode,
        policy: DestructionMode,
        click_count: Option<i32>,
    },
    Overwrite { id: Seq<char>, destination: Seq<char> },
    Delete { id: Seq<char> },
}

/// Mathematical value of a [`Reply`].
pub enum ReplyView {
    CacheValue(Option<Seq<char>>),
    CacheStored,
    CacheFailed,
    Exists(bool),
    Inserted,
    Duplicate,
    Record(Option<StoredUrlView>),
    Updated(bool),
    Overwritten,
    Deleted,
    StoreFailed(StoreFailureView),
}

impl View for Request {
    type V = RequestView;

    open spec fn view(&self) -> RequestView {
        match self {
            Request::CacheGet { id } => RequestView::CacheGet { id: id@ },
            Request::CacheSet { id, destination, ttl_seconds } => RequestView::CacheSet {
                id: id@,
                destination: destination@,
                ttl_seconds: *ttl_seconds,
            },
            Request::Exists { id } => RequestView::Exists { id: id@ },
            Request::Insert { record } => RequestView::Insert { record: record@ },
            Request::Fetch { id } => RequestView::Fetch { id: id@ },
            Request::UpdatePolicy { id, expected, policy, click_count } => RequestView::UpdatePolicy {
                id: id@,
                expected: *expected,
                policy: *policy,
                click_count: *click_count,
            },
            Request::Overwrite { id, destination } => RequestView::Overwrite {
                id: id@,
                destination: destination@,
            },
            Request::Delete { id } => RequestView::Delete { id: id@ },
        }
    }
}

impl View for Reply {
    type V = ReplyView;

    open spec fn view(&self) -> ReplyView {
        match self {
            Reply::CacheValue(value) => ReplyView::CacheValue(text_of(*value)),
            Reply::CacheStored => ReplyView::CacheStored,
            Reply::CacheFailed => ReplyView::CacheFailed,
            Reply::Exists(exists) => ReplyView::Exists(*exists),
            Reply::Inserted => ReplyView::Inserted,
            Reply::Duplicate => ReplyView::Duplicate,
            Reply::Record(record) => ReplyView::Record(
                match record {
                    Some(record) => Some(record@),
                    None => None,
                },
            ),
            Reply::Updated(updated) => ReplyView::Updated(*updated),
            Reply::Overwritten => ReplyView::Overwritten,
            Reply::Deleted => ReplyView::Deleted,
            Reply::StoreFailed(failure) => ReplyView::StoreFailed(failure@),
        }
    }
}

/// The text of the internal error that answers a reply which the operation
/// did not ask for.
pub open spec fn unexpected_reply_text() -> Seq<char> {
    "unexpected reply"@
}

} // verus!
