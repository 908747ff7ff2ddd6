//! Secure erasure: the destination is overwritten with noise, and only then
//! is the record deleted.

use crate::error::{classify_store_failure, ApiError, ApiErrorView};
use crate::exchange::{unexpected_reply_text, Reply, ReplyView, Request, RequestView};
use rand::Rng;
use vstd::prelude::*;

verus! {

/// Number of symbols of noise that a destination is overwritten with.
pub const NOISE_LENGTH: usize = 256;

/// Whether `symbol` is an ASCII letter or digit.
pub open spec fn is_alphanumeric(symbol: char) -> bool {
    ||| '0' <= symbol <= '9'
    ||| 'A' <= symbol <= 'Z'
    ||| 'a' <= symbol <= 'z'
}

/// Whether `text` is a block of noise: `NOISE_LENGTH` ASCII letters and
/// digits.
pub open spec fn is_noise(text: Seq<char>) -> bool {
    &&& text.len() == NOISE_LENGTH
    &&& forall|i: int| 0 <= i < text.len() ==> is_alphanumeric(#[trigger] text[i])
}

/// There is noise: for one, the block of `NOISE_LENGTH` zeros.
pub proof fn lemma_noise_exists()
    ensures
        exists|noise: Seq<char>| is_noise(noise),
{
    let zeros = Seq::new(NOISE_LENGTH as nat, |i: int| '0');
    assert(is_noise(zeros));
}

/// Where an erasure stands.
#[derive(Debug, Clone, PartialEq, Eq)]
pub enum ErasureState {
    /// The overwrite of the destination was asked for.
    Overwriting { id: String },
    /// The destination is overwritten and the deletion was asked for.
    Deleting { id: String },
}

/// Mathematical value of an [`ErasureState`].
pub enum ErasureStateView {
    Overwriting { id: Seq<char> },
    Deleting { id: Seq<char> },
}

/// What an erasure does next.
#[derive(Debug, PartialEq, Eq)]
pub enum ErasureStep {
    /// Perform `request` and come back with the reply.
    Next { state: ErasureState, request: Request },
    /// The erasure is over: the record is gone, or the store failed.
    Done(Result<(), ApiError>),
}

/// Mathematical value of an [`ErasureStep`].
pub enum ErasureStepView {
    Next { state: ErasureStateView, request: RequestView },
    Done(Result<(), ApiErrorView>),
}

impl View for ErasureState {
    type V = ErasureStateView;

    open spec fn view(&self) -> ErasureStateView {
        match self {
            ErasureState::Overwriting { id } => ErasureStateView::Overwriting { id: id@ },
            ErasureState::Deleting { id } => ErasureStateView::Deleting { id: id@ },
        }
    }
}

impl View for ErasureStep {
    type V = ErasureStepView;

    open spec fn view(&self) -> ErasureStepView {
        match self {
            ErasureStep::Next { state, request } => ErasureStepView::Next {
                state: state@,
                request: request@,
            },
            ErasureStep::Done(Ok(())) => ErasureStepView::Done(Ok(())),
            ErasureStep::Done(Err(error)) => ErasureStepView::Done(Err(error@)),
        }
    }
}

/// The start of an erasure: the destination is to be overwritten with
/// `noise`.
pub open spec fn erasure_start(id: Seq<char>, noise: Seq<char>) -> (ErasureStateView, RequestView) {
    (ErasureStateView::Overwriting { id }, RequestView::Overwrite { id, destination: noise })
}

/// The step that an erasure takes on a reply. The deletion is asked for only
/// once the overwrite is acknowledged, the erasure succeeds only once the
/// deletion is acknowledged, and a failure of the store ends it.
pub open spec fn erasure_next(state: ErasureStateView, reply: ReplyView) -> ErasureStepView {
    match (state, reply) {
        (ErasureStateView::Overwriting { id }, ReplyView::Overwritten) => ErasureStepView::Next {
            state: ErasureStateView::Deleting { id },
            request: RequestView::Delete { id },
        },
        (ErasureStateView::Deleting { id }, ReplyView::Deleted) => ErasureStepView::Done(Ok(())),
        (_, ReplyView::StoreFailed(failure)) => ErasureStepView::Done(
            Err(classify_store_failure(failure)),
        ),
        _ => ErasureStepView::Done(Err(ApiErrorView::Internal(unexpected_reply_text()))),
    }
}

/// `rand::Rng::sample` with `rand::distributions::Alphanumeric` on the
/// thread's generator: one byte that is an ASCII letter or digit. Which one
/// is not known.
#[verifier::external_body]
fn random_alphanumeric() -> (byte: u8)
    ensures
        is_alphanumeric(byte as char),
{
    rand::thread_rng().sample(rand::distributions::Alphanumeric)
}

/// Draws a block of noise.
pub fn random_noise() -> (noise: String)
    ensures
        is_noise(noise@),
{
    let mut noise = String::new();
    let mut drawn: usize = 0;
    while drawn < NOISE_LENGTH
        invariant
            drawn <= NOISE_LENGTH,
            noise@.len() == drawn,
            forall|i: int| 0 <= i < noise@.len() ==> is_alphanumeric(#[trigger] noise@[i]),
        decreases NOISE_LENGTH - drawn,
    {
        let byte = random_alphanumeric();
        noise.push(byte as char);
        drawn = drawn + 1;
    }
    noise
}

/// Starts the erasure of the record `id` with the given noise.
pub fn begin_erasure_with(id: String, noise: String) -> (start: (ErasureState, Request))
    ensures
        (start.0@, start.1@) == erasure_start(id@, noise@),
{
    let target = id.clone();
    (ErasureState::Overwriting { id }, Request::Overwrite { id: target, destination: noise })
}

/// Starts the erasure of the record `id`: its destination is to be
/// overwritten with freshly drawn noise.
pub fn begin_erasure(id: String) -> (start: (ErasureState, Request))
    ensures
        exists|noise: Seq<char>|
            is_noise(noise) && (start.0@, start.1@) == #[trigger] erasure_start(id@, noise),
{
    let noise = random_noise();
    let ghost drawn = noise@;
    let start = begin_erasure_with(id, noise);
    assert((start.0@, start.1@) == erasure_start(id@, drawn));
    start
}

/// Takes the next step of an erasure on the store's reply.
pub fn secure_delete_url(state: ErasureState, reply: Reply) -> (step: ErasureStep)
    ensures
        step@ == erasure_next(state@, reply@),
{
    match (state, reply) {
        (ErasureState::Overwriting { id }, Reply::Overwritten) => {
            let target = id.clone();
            ErasureStep::Next {
                state: ErasureState::Deleting { id },
                request: Request::Delete { id: target },
            }
        },
        (ErasureState::Deleting { id }, Reply::Deleted) => ErasureStep::Done(Ok(())),
        (_, Reply::StoreFailed(failure)) => ErasureStep::Done(Err(ApiError::from(failure))),
        _ => ErasureStep::Done(Err(ApiError::Internal(String::from_str("unexpected reply")))),
    }
}

} // verus!
