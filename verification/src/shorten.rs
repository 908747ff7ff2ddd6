//! The write path: an identifier is settled, the record is made durable,
//! and only then is the cache filled.

use crate::error::{
    classify_store_failure, outcome_view, ApiError, ApiErrorView, StoreFailureView,
};
use crate::exchange::{unexpected_reply_text, Reply, ReplyView, Request, RequestView};
use crate::ident::{is_generated_id, random_id, settle_probe, Allocation};
use crate::models::{fresh_record, ShortenRequest, ShortenRequestView, StoredUrl};
use vstd::prelude::*;

verus! {

/// Time that a cache entry lives, in seconds.
pub const CACHE_TTL_SECONDS: u64 = 3600;

/// Where the creation of a link stands.
#[derive(Debug, Clone, PartialEq, Eq)]
pub enum ShortenState {
    /// The store was asked whether `id` is taken.
    Probing { request: ShortenRequest, id: String },
    /// The store was asked to insert the record under `id`.
    Inserting { request: ShortenRequest, id: String },
    /// The record is durable and the cache was asked to take the entry.
    Caching { id: String },
}

/// Mathematical value of a [`ShortenState`].
pub enum ShortenStateView {
    Probing { request: ShortenRequestView, id: Seq<char> },
    Inserting { request: ShortenRequestView, id: Seq<char> },
    Caching { id: Seq<char> },
}

/// What the creation of a link does next.
#[derive(Debug, PartialEq, Eq)]
pub enum ShortenStep {
    /// Perform `request` and come back with the reply.
    Next { state: ShortenState, request: Request },
    /// The creation is over, with the identifier of the new link or with the
    /// error.
    Done(Result<String, ApiError>),
}

/// Mathematical value of a [`ShortenStep`].
pub enum ShortenStepView {
    Next { state: ShortenStateView, request: RequestView },
    Done(Result<Seq<char>, ApiErrorView>),
}

impl View for ShortenState {
    type V = ShortenStateView;

    open spec fn view(&self) -> ShortenStateView {
        match self {
            ShortenState::Probing { request, id } => ShortenStateView::Probing {
                request: request@,
                id: id@,
            },
            ShortenState::Inserting { request, id } => ShortenStateView::Inserting {
                request: request@,
                id: id@,
            },
            ShortenState::Caching { id } => ShortenStateView::Caching { id: id@ },
        }
    }
}

impl View for ShortenStep {
    type V = ShortenStepView;

    open spec fn view(&self) -> ShortenStepView {
        match self {
            ShortenStep::Next { state, request } => ShortenStepView::Next {
                state: state@,
                request: request@,
            },
            ShortenStep::Done(outcome) => ShortenStepView::Done(outcome_view(*outcome)),
        }
    }
}

/// The text of the conflict that a taken alias is refused with.
pub open spec fn alias_taken_text() -> Seq<char> {
    "Emoji combination already exists"@
}

/// The text of the internal error for a creation time that cannot be stored.
pub open spec fn invalid_timestamp_text() -> Seq<char> {
    "Invalid timestamp"@
}

/// The first second that can be stored: the start of the year -9999.
pub const FIRST_STORABLE_SECOND: i64 = -377_705_116_800;

/// The last second that can be stored: the end of the year 9999.
pub const LAST_STORABLE_SECOND: i64 = 253_402_300_799;

/// Whether a time, in seconds since the Unix epoch, can be stored: whether
/// it lies within the years -9999 to 9999.
pub open spec fn timestamp_storable(seconds: i64) -> bool {
    FIRST_STORABLE_SECOND <= seconds <= LAST_STORABLE_SECOND
}

/// `time::OffsetDateTime::from_unix_timestamp`: whether the conversion of
/// the number of seconds to a date and time succeeds. It succeeds from the
/// first second of the crate's earliest date to the last second of its
/// latest, which are the years -9999 and 9999 where the crate is built
/// without its `large-dates` feature, as it is here.
#[verifier::external_body]
fn timestamp_is_valid(seconds: i64) -> (valid: bool)
    ensures
        valid == timestamp_storable(seconds),
{
    time::OffsetDateTime::from_unix_timestamp(seconds).is_ok()
}

/// The start of a creation: the store is asked about the alias that the
/// request names, or about the candidate `fresh` where it names none.
pub open spec fn shorten_start(request: ShortenRequestView, fresh: Seq<char>) -> (
    ShortenStateView,
    RequestView,
) {
    let id = match request.custom_alias {
        Some(alias) => alias,
        None => fresh,
    };
    (ShortenStateView::Probing { request, id }, RequestView::Exists { id })
}

/// What follows when the identifier turns out to be taken: a conflict for
/// an alias that the caller chose, and a probe of the candidate `fresh`
/// for a generated one.
pub open spec fn shorten_collision(request: ShortenRequestView, fresh: Seq<char>) -> ShortenStepView {
    if request.custom_alias is Some {
        ShortenStepView::Done(Err(ApiErrorView::Conflict(alias_taken_text())))
    } else {
        ShortenStepView::Next {
            state: ShortenStateView::Probing { request, id: fresh },
            request: RequestView::Exists { id: fresh },
        }
    }
}

/// The step that a creation takes on a reply that arrives at time `now`
/// (seconds since the Unix epoch).
///
/// A free identifier leads to the insert of a fresh record, provided that
/// `now` can be stored. A taken one, whether the probe or the insert finds
/// it out, is a collision. The cache is asked only after the insert is
/// acknowledged, and whatever it answers, the creation succeeds with the
/// identifier. A failure of the store ends the creation.
pub open spec fn shorten_next(
    state: ShortenStateView,
    reply: ReplyView,
    now: i64,
    timestamp_ok: bool,
    fresh: Seq<char>,
) -> ShortenStepView {
    match state {
        ShortenStateView::Probing { request, id } => match reply {
            ReplyView::Exists(taken) => if taken {
                shorten_collision(request, fresh)
            } else if timestamp_ok {
                ShortenStepView::Next {
                    state: ShortenStateView::Inserting { request, id },
                    request: RequestView::Insert {
                        record: fresh_record(id, request.original_url, now, request.destruction),
                    },
                }
            } else {
                ShortenStepView::Done(Err(ApiErrorView::Internal(invalid_timestamp_text())))
            },
            ReplyView::StoreFailed(failure) => ShortenStepView::Done(
                Err(classify_store_failure(failure)),
            ),
            _ => ShortenStepView::Done(Err(ApiErrorView::Internal(unexpected_reply_text()))),
        },
        ShortenStateView::Inserting { request, id } => match reply {
            ReplyView::Inserted => ShortenStepView::Next {
                state: ShortenStateView::Caching { id },
                request: RequestView::CacheSet {
                    id,
                    destination: request.original_url,
                    ttl_seconds: CACHE_TTL_SECONDS,
                },
            },
            ReplyView::Duplicate => shorten_collision(request, fresh),
            ReplyView::StoreFailed(failure) => ShortenStepView::Done(
                Err(classify_store_failure(failure)),
            ),
            _ => ShortenStepView::Done(Err(ApiErrorView::Internal(unexpected_reply_text()))),
        },
        ShortenStateView::Caching { id } => ShortenStepView::Done(Ok(id)),
    }
}

/// Starts a creation, with `fresh` as the candidate identifier for a
/// request that names no alias.
pub fn begin_shorten_with(request: ShortenRequest, fresh: String) -> (start: (ShortenState, Request))
    ensures
        (start.0@, start.1@) == shorten_start(request@, fresh@),
{
    let id = match &request.custom_alias {
        Some(alias) => alias.clone(),
        None => fresh,
    };
    let probed = id.clone();
    (ShortenState::Probing { request, id }, Request::Exists { id: probed })
}

/// Starts a creation: the store is asked about the alias that the request
/// names, or about a newly drawn candidate where it names none.
pub fn begin_shorten(request: ShortenRequest) -> (start: (ShortenState, Request))
    ensures
        exists|fresh: Seq<char>|
            is_generated_id(fresh) && (start.0@, start.1@) == #[trigger] shorten_start(
                request@,
                fresh,
            ),
{
    let fresh = random_id();
    let ghost drawn = fresh@;
    let start = begin_shorten_with(request, fresh);
    assert((start.0@, start.1@) == shorten_start(request@, drawn));
    start
}

fn conflict() -> (step: ShortenStep)
    ensures
        step@ == ShortenStepView::Done(Err(ApiErrorView::Conflict(alias_taken_text()))),
{
    ShortenStep::Done(Err(ApiError::Conflict(String::from_str("Emoji combination already exists"))))
}

fn probe(request: ShortenRequest, id: String) -> (step: ShortenStep)
    ensures
        step@ == (ShortenStepView::Next {
            state: ShortenStateView::Probing { request: request@, id: id@ },
            request: RequestView::Exists { id: id@ },
        }),
{
    let probed = id.clone();
    ShortenStep::Next {
        state: ShortenState::Probing { request, id },
        request: Request::Exists { id: probed },
    }
}

fn collision(request: ShortenRequest, fresh: String) -> (step: ShortenStep)
    ensures
        step@ == shorten_collision(request@, fresh@),
{
    if request.custom_alias.is_some() {
        conflict()
    } else {
        probe(request, fresh)
    }
}

fn insert(request: ShortenRequest, id: String, now: i64, timestamp_ok: bool) -> (step: ShortenStep)
    ensures
        step@ == shorten_next(
            ShortenStateView::Probing { request: request@, id: id@ },
            ReplyView::Exists(false),
            now,
            timestamp_ok,
            Seq::empty(),
        ),
{
    if timestamp_ok {
        let record = StoredUrl::new(
            id.clone(),
            request.original_url.clone(),
            now,
            request.destruction.clone(),
        );
        ShortenStep::Next {
            state: ShortenState::Inserting { request, id },
            request: Request::Insert { record },
        }
    } else {
        ShortenStep::Done(Err(ApiError::Internal(String::from_str("Invalid timestamp"))))
    }
}

fn unexpected() -> (step: ShortenStep)
    ensures
        step@ == ShortenStepView::Done(Err(ApiErrorView::Internal(unexpected_reply_text()))),
{
    ShortenStep::Done(Err(ApiError::Internal(String::from_str("unexpected reply"))))
}

/// Takes the next step of a creation, with `timestamp_ok` saying whether
/// `now` can be stored and `fresh` as the candidate to try after a
/// collision.
pub fn shorten_step(
    state: ShortenState,
    reply: Reply,
    now: i64,
    timestamp_ok: bool,
    fresh: String,
) -> (step: ShortenStep)
    ensures
        step@ == shorten_next(state@, reply@, now, timestamp_ok, fresh@),
{
    match state {
        ShortenState::Probing { request, id } => match reply {
            Reply::Exists(taken) => {
                if request.custom_alias.is_some() {
                    if taken {
                        conflict()
                    } else {
                        insert(request, id, now, timestamp_ok)
                    }
                } else {
                    match settle_probe(id, taken, fresh) {
                        Allocation::Granted(id) => insert(request, id, now, timestamp_ok),
                        Allocation::Retry(next) => probe(request, next),
                    }
                }
            },
            Reply::StoreFailed(failure) => ShortenStep::Done(Err(ApiError::from(failure))),
            _ => unexpected(),
        },
        ShortenState::Inserting { request, id } => match reply {
            Reply::Inserted => {
                let cached = id.clone();
                ShortenStep::Next {
                    state: ShortenState::Caching { id },
                    request: Request::CacheSet {
                        id: cached,
                        destination: request.original_url,
                        ttl_seconds: CACHE_TTL_SECONDS,
                    },
                }
            },
            Reply::Duplicate => collision(request, fresh),
            Reply::StoreFailed(failure) => ShortenStep::Done(Err(ApiError::from(failure))),
            _ => unexpected(),
        },
        ShortenState::Caching { id } => ShortenStep::Done(Ok(id)),
    }
}

/// Takes the next step of a creation on a reply that arrives at time `now`
/// (seconds since the Unix epoch).
pub fn shorten_url(state: ShortenState, reply: Reply, now: i64) -> (step: ShortenStep)
    ensures
        exists|fresh: Seq<char>|
            is_generated_id(fresh) && step@ == #[trigger] shorten_next(
                state@,
                reply@,
                now,
                timestamp_storable(now),
                fresh,
            ),
{
    let fresh = random_id();
    let ghost drawn = fresh@;
    let timestamp_ok = timestamp_is_valid(now);
    let step = shorten_step(state, reply, now, timestamp_ok, fresh);
    assert(step@ == shorten_next(state@, reply@, now, timestamp_storable(now), drawn));
    step
}

/// A failure of the store ends the creation at once, with the failure as
/// it is classified: no new candidate is drawn and nothing is asked again.
pub proof fn lemma_store_failure_ends_creation(
    state: ShortenStateView,
    failure: StoreFailureView,
    now: i64,
    timestamp_ok: bool,
    fresh: Seq<char>,
)
    requires
        !(state is Caching),
    ensures
        shorten_next(state, ReplyView::StoreFailed(failure), now, timestamp_ok, fresh)
            == ShortenStepView::Done(Err(classify_store_failure(failure))),
{
}

/// Uniqueness is tested before the insert: an insert is asked for only on
/// the step that learns that the probed identifier is free, and it is the
/// insert of a fresh record under that identifier.
pub proof fn lemma_insert_follows_free_probe(
    state: ShortenStateView,
    reply: ReplyView,
    now: i64,
    timestamp_ok: bool,
    fresh: Seq<char>,
)
    ensures
        shorten_next(state, reply, now, timestamp_ok, fresh) matches ShortenStepView::Next {
            request: RequestView::Insert { record },
            ..
        } ==> {
            &&& reply == ReplyView::Exists(false)
            &&& timestamp_ok
            &&& state matches ShortenStateView::Probing { request, id }
            &&& record == fresh_record(id, request.original_url, now, request.destruction)
        },
{
}

/// The durable store comes first: the cache is asked to take an entry only
/// on the step that learns of the insert, and then it is the entry of the
/// record that was inserted.
pub proof fn lemma_cache_filled_after_insert(
    state: ShortenStateView,
    reply: ReplyView,
    now: i64,
    timestamp_ok: bool,
    fresh: Seq<char>,
)
    ensures
        shorten_next(state, reply, now, timestamp_ok, fresh) matches ShortenStepView::Next {
            request: RequestView::CacheSet { id, destination, ttl_seconds },
            ..
        } ==> {
            &&& reply is Inserted
            &&& state matches ShortenStateView::Inserting { request, id: inserted }
            &&& inserted == id
            &&& request.original_url == destination
            &&& ttl_seconds == CACHE_TTL_SECONDS
        },
{
}

/// A creation succeeds only out of the state in which the record is
/// durable, and a failure of the cache cannot make it fail there.
pub proof fn lemma_success_follows_insert(
    state: ShortenStateView,
    reply: ReplyView,
    now: i64,
    timestamp_ok: bool,
    fresh: Seq<char>,
)
    ensures
        shorten_next(state, reply, now, timestamp_ok, fresh) matches ShortenStepView::Done(Ok(_))
            <==> state is Caching,
        state matches ShortenStateView::Caching { id } ==> shorten_next(
            state,
            reply,
            now,
            timestamp_ok,
            fresh,
        ) == ShortenStepView::Done(Ok(id)),
{
}

} // verus!
