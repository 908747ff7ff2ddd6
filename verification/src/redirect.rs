//! The read path: the cache is asked first; on a miss the record is read
//! from the store, its policy decides, and what the policy changes is made
//! durable before the read is answered.

use crate::erasure::{
    begin_erasure_with, erasure_next, erasure_start, is_noise, lemma_noise_exists, random_noise,
    secure_delete_url, ErasureState, ErasureStateView, ErasureStep, ErasureStepView,
};
use crate::error::{classify_store_failure, outcome_view, ApiError, ApiErrorView};
use crate::exchange::{unexpected_reply_text, Reply, ReplyView, Request, RequestView};
use crate::models::{counted_once_more, text_of, StoredUrl, StoredUrlView};
use crate::policy::{
    is_counted, lemma_permit_changes_counted, lemma_reads_count_down, verdict_of, Verdict,
};
use vstd::prelude::*;

verus! {

/// Where a read stands.
#[derive(Debug, Clone, PartialEq, Eq)]
pub enum RedirectState {
    /// The cache was asked for the destination.
    Probing { id: String },
    /// The store was asked for the record.
    Loading { id: String },
    /// The read is permitted and the store was asked to keep the changed
    /// policy; `erase` says whether the record is to be erased afterwards.
    Persisting { id: String, destination: String, erase: bool },
    /// The record is being erased. `served` is the destination that the
    /// read is answered with afterwards, and `None` for a denied read.
    Erasing { erasure: ErasureState, served: Option<String> },
}

/// Mathematical value of a [`RedirectState`].
pub enum RedirectStateView {
    Probing { id: Seq<char> },
    Loading { id: Seq<char> },
    Persisting { id: Seq<char>, destination: Seq<char>, erase: bool },
    Erasing { erasure: ErasureStateView, served: Option<Seq<char>> },
}

/// What a read does next.
#[derive(Debug, PartialEq, Eq)]
pub enum RedirectStep {
    /// Perform `request` and come back with the reply.
    Next { state: RedirectState, request: Request },
    /// The read is over, with the destination or with the error.
    Done(Result<String, ApiError>),
}

/// Mathematical value of a [`RedirectStep`].
pub enum RedirectStepView {
    Next { state: RedirectStateView, request: RequestView },
    Done(Result<Seq<char>, ApiErrorView>),
}

impl View for RedirectState {
    type V = RedirectStateView;

    open spec fn view(&self) -> RedirectStateView {
        match self {
            RedirectState::Probing { id } => RedirectStateView::Probing { id: id@ },
            RedirectState::Loading { id } => RedirectStateView::Loading { id: id@ },
            RedirectState::Persisting { id, destination, erase } => RedirectStateView::Persisting {
                id: id@,
                destination: destination@,
                erase: *erase,
            },
            RedirectState::Erasing { erasure, served } => RedirectStateView::Erasing {
                erasure: erasure@,
                served: text_of(*served),
            },
        }
    }
}

impl View for RedirectStep {
    type V = RedirectStepView;

    open spec fn view(&self) -> RedirectStepView {
        match self {
            RedirectStep::Next { state, request } => RedirectStepView::Next {
                state: state@,
                request: request@,
            },
            RedirectStep::Done(outcome) => RedirectStepView::Done(outcome_view(*outcome)),
        }
    }
}

/// The start of a read: the cache is asked.
pub open spec fn redirect_start(id: Seq<char>) -> (RedirectStateView, RequestView) {
    (RedirectStateView::Probing { id }, RequestView::CacheGet { id })
}

/// The step that begins the erasure of the record, after which the read is
/// answered with `served`, or as gone where there is none.
pub open spec fn redirect_erase(
    id: Seq<char>,
    noise: Seq<char>,
    served: Option<Seq<char>>,
) -> RedirectStepView {
    RedirectStepView::Next {
        state: RedirectStateView::Erasing { erasure: erasure_start(id, noise).0, served },
        request: erasure_start(id, noise).1,
    }
}

/// The answer of a read whose erasure is done.
pub open spec fn redirect_answer(served: Option<Seq<char>>) -> Result<Seq<char>, ApiErrorView> {
    match served {
        Some(destination) => Ok(destination),
        None => Err(ApiErrorView::Gone),
    }
}

/// The step that a read takes once the record is there.
///
/// A denied read erases the record and is then answered as gone. A
/// permitted read that changes the policy asks the store to keep the new
/// policy and the advanced read counter, on condition that the stored
/// policy is still the one that was evaluated. A permitted read that
/// changes nothing is answered at once; such a read never calls for
/// erasure.
pub open spec fn redirect_on_record(
    id: Seq<char>,
    record: StoredUrlView,
    now: u128,
    noise: Seq<char>,
) -> RedirectStepView {
    match verdict_of(record.destruction_mode, now) {
        Verdict::Deny => redirect_erase(id, noise, None),
        Verdict::Permit { policy, erase } => if policy != record.destruction_mode {
            RedirectStepView::Next {
                state: RedirectStateView::Persisting {
                    id,
                    destination: record.original_url,
                    erase,
                },
                request: RequestView::UpdatePolicy {
                    id,
                    expected: record.destruction_mode,
                    policy,
                    click_count: counted_once_more(record.click_count),
                },
            }
        } else {
            RedirectStepView::Done(Ok(record.original_url))
        },
    }
}

/// The step that a read takes on a reply that arrives at time `now`
/// (nanoseconds since the Unix epoch), with `noise` to overwrite the
/// destination with if an erasure begins.
///
/// A destination from the cache answers the read with no look at the
/// record; anything else from the cache sends the read to the store. A
/// missing record ends the read as not found. Once the store has kept a
/// changed policy the read is answered, after the erasure where the policy
/// called for one; where the store did not find the policy that was
/// evaluated, the record is read again. A failure of the store ends the
/// read, and a failed erasure ends it with that failure.
pub open spec fn redirect_next(
    state: RedirectStateView,
    reply: ReplyView,
    now: u128,
    noise: Seq<char>,
) -> RedirectStepView {
    match state {
        RedirectStateView::Probing { id } => match reply {
            ReplyView::CacheValue(Some(destination)) => RedirectStepView::Done(Ok(destination)),
            _ => RedirectStepView::Next {
                state: RedirectStateView::Loading { id },
                request: RequestView::Fetch { id },
            },
        },
        RedirectStateView::Loading { id } => match reply {
            ReplyView::Record(Some(record)) => redirect_on_record(id, record, now, noise),
            ReplyView::Record(None) => RedirectStepView::Done(Err(ApiErrorView::NotFound)),
            ReplyView::StoreFailed(failure) => RedirectStepView::Done(
                Err(classify_store_failure(failure)),
            ),
            _ => RedirectStepView::Done(Err(ApiErrorView::Internal(unexpected_reply_text()))),
        },
        RedirectStateView::Persisting { id, destination, erase } => match reply {
            ReplyView::Updated(updated) => if !updated {
                RedirectStepView::Next {
                    state: RedirectStateView::Loading { id },
                    request: RequestView::Fetch { id },
                }
            } else if erase {
                redirect_erase(id, noise, Some(destination))
            } else {
                RedirectStepView::Done(Ok(destination))
            },
            ReplyView::StoreFailed(failure) => RedirectStepView::Done(
                Err(classify_store_failure(failure)),
            ),
            _ => RedirectStepView::Done(Err(ApiErrorView::Internal(unexpected_reply_text()))),
        },
        RedirectStateView::Erasing { erasure, served } => match erasure_next(erasure, reply) {
            ErasureStepView::Next { state, request } => RedirectStepView::Next {
                state: RedirectStateView::Erasing { erasure: state, served },
                request,
            },
            ErasureStepView::Done(Ok(())) => RedirectStepView::Done(redirect_answer(served)),
            ErasureStepView::Done(Err(error)) => RedirectStepView::Done(Err(error)),
        },
    }
}

/// Starts the read of the link `id`.
pub fn begin_redirect(id: String) -> (start: (RedirectState, Request))
    ensures
        (start.0@, start.1@) == redirect_start(id@),
{
    let probed = id.clone();
    (RedirectState::Probing { id }, Request::CacheGet { id: probed })
}

fn erase_then(id: String, noise: String, served: Option<String>) -> (step: RedirectStep)
    ensures
        step@ == redirect_erase(id@, noise@, text_of(served)),
{
    let (erasure, request) = begin_erasure_with(id, noise);
    RedirectStep::Next { state: RedirectState::Erasing { erasure, served }, request }
}

fn fetch(id: String) -> (step: RedirectStep)
    ensures
        step@ == (RedirectStepView::Next {
            state: RedirectStateView::Loading { id: id@ },
            request: RequestView::Fetch { id: id@ },
        }),
{
    let wanted = id.clone();
    RedirectStep::Next {
        state: RedirectState::Loading { id },
        request: Request::Fetch { id: wanted },
    }
}

fn unexpected() -> (step: RedirectStep)
    ensures
        step@ == RedirectStepView::Done(Err(ApiErrorView::Internal(unexpected_reply_text()))),
{
    RedirectStep::Done(Err(ApiError::Internal(String::from_str("unexpected reply"))))
}

/// Decides the read of a record that the store handed over.
pub fn consume_record(
    id: String,
    record: StoredUrl,
    now: u128,
    noise: String,
) -> (step: RedirectStep)
    ensures
        step@ == redirect_on_record(id@, record@, now, noise@),
{
    let click_count = record.next_click_count();
    let counted = record.destruction_mode.is_counted();
    let verdict = record.destruction_mode.evaluate(now);
    match verdict {
        Verdict::Deny => erase_then(id, noise, None),
        Verdict::Permit { policy, erase } => {
            proof {
                lemma_permit_changes_counted(record.destruction_mode, now);
            }
            if counted {
                let target = id.clone();
                RedirectStep::Next {
                    state: RedirectState::Persisting {
                        id,
                        destination: record.original_url,
                        erase,
                    },
                    request: Request::UpdatePolicy {
                        id: target,
                        expected: record.destruction_mode,
                        policy,
                        click_count,
                    },
                }
            } else {
                RedirectStep::Done(Ok(record.original_url))
            }
        },
    }
}

/// Takes the next step of a read, with `noise` to overwrite the
/// destination with if an erasure begins.
pub fn redirect_step(
    state: RedirectState,
    reply: Reply,
    now: u128,
    noise: String,
) -> (step: RedirectStep)
    ensures
        step@ == redirect_next(state@, reply@, now, noise@),
{
    match state {
        RedirectState::Probing { id } => match reply {
            Reply::CacheValue(Some(destination)) => RedirectStep::Done(Ok(destination)),
            _ => fetch(id),
        },
        RedirectState::Loading { id } => match reply {
            Reply::Record(Some(record)) => consume_record(id, record, now, noise),
            Reply::Record(None) => RedirectStep::Done(Err(ApiError::NotFound)),
            Reply::StoreFailed(failure) => RedirectStep::Done(Err(ApiError::from(failure))),
            _ => unexpected(),
        },
        RedirectState::Persisting { id, destination, erase } => match reply {
            Reply::Updated(updated) => {
                if !updated {
                    fetch(id)
                } else if erase {
                    erase_then(id, noise, Some(destination))
                } else {
                    RedirectStep::Done(Ok(destination))
                }
            },
            Reply::StoreFailed(failure) => RedirectStep::Done(Err(ApiError::from(failure))),
            _ => unexpected(),
        },
        RedirectState::Erasing { erasure, served } => match secure_delete_url(erasure, reply) {
            ErasureStep::Next { state, request } => RedirectStep::Next {
                state: RedirectState::Erasing { erasure: state, served },
                request,
            },
            ErasureStep::Done(Ok(())) => match served {
                Some(destination) => RedirectStep::Done(Ok(destination)),
                None => RedirectStep::Done(Err(ApiError::Gone)),
            },
            ErasureStep::Done(Err(error)) => RedirectStep::Done(Err(error)),
        },
    }
}

/// Takes the next step of a read on a reply that arrives at time `now`
/// (nanoseconds since the Unix epoch). Noise is drawn only on the step
/// that begins an erasure.
pub fn redirect(state: RedirectState, reply: Reply, now: u128) -> (step: RedirectStep)
    ensures
        exists|noise: Seq<char>|
            is_noise(noise) && step@ == #[trigger] redirect_next(state@, reply@, now, noise),
{
    let ghost planned = redirect_next(state@, reply@, now, Seq::<char>::empty());
    let step = redirect_step(state, reply, now, String::new());
    match step {
        RedirectStep::Next {
            state: RedirectState::Erasing { erasure: ErasureState::Overwriting { id }, served },
            request: Request::Overwrite { id: target, .. },
        } => {
            let noise = random_noise();
            let ghost drawn = noise@;
            let started = RedirectStep::Next {
                state: RedirectState::Erasing { erasure: ErasureState::Overwriting { id }, served },
                request: Request::Overwrite { id: target, destination: noise },
            };
            assert(started@ == redirect_next(state@, reply@, now, drawn));
            started
        },
        other => {
            proof {
                lemma_noise_exists();
                let any = choose|noise: Seq<char>| is_noise(noise);
                assert(planned == redirect_next(state@, reply@, now, any));
            }
            other
        },
    }
}

/// A read never fills the cache, so a policy's state is never kept in the
/// cache alone.
pub proof fn lemma_read_never_fills_cache(
    state: RedirectStateView,
    reply: ReplyView,
    now: u128,
    noise: Seq<char>,
)
    ensures
        !(redirect_next(state, reply, now, noise) matches RedirectStepView::Next {
            request: RequestView::CacheSet { .. },
            ..
        }),
        !(redirect_next(state, reply, now, noise) matches RedirectStepView::Next {
            request: RequestView::Insert { .. },
            ..
        }),
{
}

/// A cached destination ends the read at once: the answer is that
/// destination, and no request goes to the store.
pub proof fn lemma_cache_hit_ends_read(
    id: Seq<char>,
    destination: Seq<char>,
    now: u128,
    noise: Seq<char>,
)
    ensures
        redirect_next(
            RedirectStateView::Probing { id },
            ReplyView::CacheValue(Some(destination)),
            now,
            noise,
        ) == RedirectStepView::Done(Ok(destination)),
{
}

/// Whatever else the cache answers, a failure too, sends the read to the
/// store: a failing cache never decides a read.
pub proof fn lemma_cache_miss_goes_to_store(
    id: Seq<char>,
    reply: ReplyView,
    now: u128,
    noise: Seq<char>,
)
    requires
        !(reply matches ReplyView::CacheValue(Some(_))),
    ensures
        redirect_next(RedirectStateView::Probing { id }, reply, now, noise) == (
        RedirectStepView::Next {
            state: RedirectStateView::Loading { id },
            request: RequestView::Fetch { id },
        }),
{
}

/// What a record leads to. A denied read asks for nothing but the start of
/// the erasure. A permitted read of a counted policy asks the store to keep
/// the new policy before anything else; one of a policy that is not
/// counted is answered at once, with no write.
pub proof fn lemma_record_decides(id: Seq<char>, record: StoredUrlView, now: u128, noise: Seq<char>)
    ensures
        verdict_of(record.destruction_mode, now) == Verdict::Deny ==> redirect_on_record(
            id,
            record,
            now,
            noise,
        ) == redirect_erase(id, noise, None),
        verdict_of(record.destruction_mode, now).permits() && is_counted(record.destruction_mode)
            ==> redirect_on_record(id, record, now, noise) == (RedirectStepView::Next {
            state: RedirectStateView::Persisting {
                id,
                destination: record.original_url,
                erase: verdict_of(record.destruction_mode, now).erases(),
            },
            request: RequestView::UpdatePolicy {
                id,
                expected: record.destruction_mode,
                policy: verdict_of(record.destruction_mode, now)->policy,
                click_count: counted_once_more(record.click_count),
            },
        }),
        verdict_of(record.destruction_mode, now).permits() && !is_counted(record.destruction_mode)
            ==> redirect_on_record(id, record, now, noise) == RedirectStepView::Done(
            Ok(record.original_url),
        ),
{
    if verdict_of(record.destruction_mode, now).permits() {
        lemma_permit_changes_counted(record.destruction_mode, now);
        lemma_reads_count_down(record.destruction_mode, now);
    }
}

/// A read is answered with a destination only where the cache held one,
/// where the store kept the changed policy, where the erasure after a
/// permitted read is done, or where a record with a policy that is not
/// counted was permitted.
pub proof fn lemma_served_reads(
    state: RedirectStateView,
    reply: ReplyView,
    now: u128,
    noise: Seq<char>,
)
    requires
        redirect_next(state, reply, now, noise) matches RedirectStepView::Done(Ok(_)),
    ensures
        match state {
            RedirectStateView::Probing { .. } => reply matches ReplyView::CacheValue(Some(_)),
            RedirectStateView::Loading { .. } => reply matches ReplyView::Record(Some(record))
                && verdict_of(record.destruction_mode, now) == (Verdict::Permit {
                policy: record.destruction_mode,
                erase: false,
            }),
            RedirectStateView::Persisting { erase, .. } => reply == ReplyView::Updated(true)
                && !erase,
            RedirectStateView::Erasing { erasure, served } => served is Some && erasure
                is Deleting && reply is Deleted,
        },
{
    match (state, reply) {
        (RedirectStateView::Loading { .. }, ReplyView::Record(Some(record))) => {
            if verdict_of(record.destruction_mode, now).permits() {
                lemma_permit_changes_counted(record.destruction_mode, now);
                lemma_reads_count_down(record.destruction_mode, now);
            }
        },
        _ => {},
    }
}

} // verus!
