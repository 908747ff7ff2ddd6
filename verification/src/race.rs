//! Reads of one link that run at the same time: their steps interleave in
//! any order, and each step is one atomic exchange with the store.

use crate::erasure::ErasureStateView;
use crate::error::ApiErrorView;
use crate::exchange::RequestView;
use crate::model::{serve, ReadTick, World};
use crate::policy::DestructionMode;
use crate::redirect::{redirect_next, redirect_start, RedirectStateView, RedirectStepView};
use vstd::prelude::*;

verus! {

/// One of the reads that run at the same time.
pub enum Reader {
    /// The read waits for the reply to `request`.
    Running { state: RedirectStateView, request: RequestView },
    /// The read is over.
    Finished(Result<Seq<char>, ApiErrorView>),
}

/// One step of the schedule: which reader moves, and what the clock and
/// the generator give it.
pub struct Turn {
    pub reader: int,
    pub tick: ReadTick,
}

/// The contents and the readers after the reader of `turn` has made its
/// request and taken its step on the reply. A reader that is over, or one
/// that does not exist, leaves everything as it is.
pub open spec fn take_turn(world: World, readers: Seq<Reader>, turn: Turn) -> (World, Seq<Reader>) {
    if 0 <= turn.reader < readers.len() {
        match readers[turn.reader] {
            Reader::Running { state, request } => {
                let (served, reply) = serve(world, request);
                let moved = match redirect_next(state, reply, turn.tick.now, turn.tick.noise) {
                    RedirectStepView::Next { state, request } => Reader::Running { state, request },
                    RedirectStepView::Done(outcome) => Reader::Finished(outcome),
                };
                (served, readers.update(turn.reader, moved))
            },
            Reader::Finished(_) => (world, readers),
        }
    } else {
        (world, readers)
    }
}

/// The contents and the readers after the turns of `schedule`, in order.
pub open spec fn interleave(world: World, readers: Seq<Reader>, schedule: Seq<Turn>) -> (
    World,
    Seq<Reader>,
)
    decreases schedule.len(),
{
    if schedule.len() == 0 {
        (world, readers)
    } else {
        let (before, moved) = interleave(world, readers, schedule.drop_last());
        take_turn(before, moved, schedule.last())
    }
}

/// `count` reads of the link `id`, none of which has taken a step.
pub open spec fn readers_at_start(id: Seq<char>, count: nat) -> Seq<Reader> {
    Seq::new(
        count,
        |i: int| Reader::Running { state: redirect_start(id).0, request: redirect_start(id).1 },
    )
}

/// Whether the reader was served the destination.
pub open spec fn was_served(reader: Reader) -> bool {
    reader matches Reader::Finished(Ok(_))
}

/// A reader that has neither changed the record nor been answered.
pub closed spec fn is_waiting(reader: Reader, id: Seq<char>, url: Seq<char>) -> bool {
    reader matches Reader::Running { state, request } && match state {
        RedirectStateView::Probing { id: wanted } => wanted == id && request
            == (RequestView::CacheGet { id }),
        RedirectStateView::Loading { id: wanted } => wanted == id && request
            == (RequestView::Fetch { id }),
        RedirectStateView::Persisting { id: wanted, destination, erase } => {
            &&& wanted == id
            &&& destination == url
            &&& erase
            &&& request matches RequestView::UpdatePolicy { id: target, expected, policy, .. }
            &&& target == id
            &&& expected == DestructionMode::ClickFuse(1)
            &&& policy == DestructionMode::ClickFuse(0)
        },
        RedirectStateView::Erasing { .. } => false,
    }
}

/// An erasure of the record `id` that is under way.
pub closed spec fn is_erasing(state: ErasureStateView, request: RequestView, id: Seq<char>) -> bool {
    match state {
        ErasureStateView::Overwriting { id: wanted } => {
            &&& wanted == id
            &&& request matches RequestView::Overwrite { id: target, .. }
            &&& target == id
        },
        ErasureStateView::Deleting { id: wanted } => wanted == id && request
            == (RequestView::Delete { id }),
    }
}

/// A reader whose update took the last click.
pub closed spec fn has_won(reader: Reader, id: Seq<char>, url: Seq<char>) -> bool {
    match reader {
        Reader::Running { state: RedirectStateView::Erasing { erasure, served }, request } => served
            == Some(url) && is_erasing(erasure, request, id),
        Reader::Finished(outcome) => outcome == Ok::<Seq<char>, ApiErrorView>(url),
        _ => false,
    }
}

/// A reader that found the click taken.
pub closed spec fn has_lost(reader: Reader, id: Seq<char>) -> bool {
    match reader {
        Reader::Running { state: RedirectStateView::Erasing { erasure, served }, request } => served
            is None && is_erasing(erasure, request, id),
        Reader::Finished(outcome) => outcome == Err::<Seq<char>, ApiErrorView>(ApiErrorView::Gone)
            || outcome == Err::<Seq<char>, ApiErrorView>(ApiErrorView::NotFound),
        _ => false,
    }
}

/// What holds at every point of a race for the single click of the link
/// `id`. Until a reader wins, the record holds its one click and every
/// reader waits. From then on the record, as long as it is there, holds no
/// click and is gone once the winner is answered, and every other reader
/// waits or has lost.
pub closed spec fn race_holds(
    world: World,
    readers: Seq<Reader>,
    id: Seq<char>,
    url: Seq<char>,
    winner: Option<int>,
) -> bool {
    &&& !world.cache.contains_key(id)
    &&& match winner {
        None => {
            &&& world.store.contains_key(id)
            &&& world.store[id].destruction_mode == DestructionMode::ClickFuse(1)
            &&& world.store[id].original_url == url
            &&& forall|i: int| 0 <= i < readers.len() ==> is_waiting(#[trigger] readers[i], id, url)
        },
        Some(first) => {
            &&& 0 <= first < readers.len()
            &&& has_won(readers[first], id, url)
            &&& world.store.contains_key(id) ==> world.store[id].destruction_mode
                == DestructionMode::ClickFuse(0)
            &&& readers[first] is Finished ==> !world.store.contains_key(id)
            &&& forall|i: int|
                0 <= i < readers.len() && i != first ==> is_waiting(#[trigger] readers[i], id, url)
                    || has_lost(readers[i], id)
        },
    }
}

proof fn lemma_turn_keeps_race(
    world: World,
    readers: Seq<Reader>,
    id: Seq<char>,
    url: Seq<char>,
    winner: Option<int>,
    turn: Turn,
) -> (next: Option<int>)
    requires
        race_holds(world, readers, id, url, winner),
    ensures
        race_holds(take_turn(world, readers, turn).0, take_turn(world, readers, turn).1, id, url, next),
        take_turn(world, readers, turn).1.len() == readers.len(),
        winner is Some ==> next == winner,
{
    let (after, moved) = take_turn(world, readers, turn);
    if 0 <= turn.reader < readers.len() {
        let reader = readers[turn.reader];
        match reader {
            Reader::Running { state, request } => {
                let next = if winner is None && state is Persisting {
                    Some(turn.reader)
                } else {
                    winner
                };
                assert forall|i: int| 0 <= i < moved.len() && i != turn.reader implies moved[i]
                    == readers[i] by {}
                match winner {
                    None => {
                        assert(is_waiting(reader, id, url));
                    },
                    Some(first) => {
                        if turn.reader != first {
                            assert(is_waiting(reader, id, url) || has_lost(reader, id));
                        }
                    },
                }
                assert(race_holds(after, moved, id, url, next));
                next
            },
            Reader::Finished(_) => winner,
        }
    } else {
        winner
    }
}

proof fn lemma_race(world: World, id: Seq<char>, count: nat, schedule: Seq<Turn>) -> (winner: Option<
    int,
>)
    requires
        !world.cache.contains_key(id),
        world.store.contains_key(id),
        world.store[id].destruction_mode == DestructionMode::ClickFuse(1),
    ensures
        race_holds(
            interleave(world, readers_at_start(id, count), schedule).0,
            interleave(world, readers_at_start(id, count), schedule).1,
            id,
            world.store[id].original_url,
            winner,
        ),
        interleave(world, readers_at_start(id, count), schedule).1.len() == count,
    decreases schedule.len(),
{
    if schedule.len() == 0 {
        None
    } else {
        let before = lemma_race(world, id, count, schedule.drop_last());
        let (earlier, readers) = interleave(world, readers_at_start(id, count), schedule.drop_last());
        lemma_turn_keeps_race(earlier, readers, id, world.store[id].original_url, before, schedule.last())
    }
}

/// A single click is served once. Where any number of reads race for a
/// link with a click fuse of one, through a cold cache and against a
/// faithful store, then after any interleaving of their steps at most one
/// of them was served; every read that is over was served the destination,
/// or found the link gone or not there; and once all are over, exactly one
/// was served and the record is erased.
pub proof fn lemma_one_click_one_winner(world: World, id: Seq<char>, count: nat, schedule: Seq<Turn>)
    requires
        !world.cache.contains_key(id),
        world.store.contains_key(id),
        world.store[id].destruction_mode == DestructionMode::ClickFuse(1),
    ensures
        ({
            let (after, readers) = interleave(world, readers_at_start(id, count), schedule);
            let url = world.store[id].original_url;
            &&& readers.len() == count
            &&& forall|i: int, j: int|
                0 <= i < count && 0 <= j < count && was_served(#[trigger] readers[i]) && was_served(
                    #[trigger] readers[j],
                ) ==> i == j
            &&& forall|i: int|
                0 <= i < count ==> (#[trigger] readers[i] matches Reader::Finished(outcome) ==> {
                    ||| outcome == Ok::<Seq<char>, ApiErrorView>(url)
                    ||| outcome == Err::<Seq<char>, ApiErrorView>(ApiErrorView::Gone)
                    ||| outcome == Err::<Seq<char>, ApiErrorView>(ApiErrorView::NotFound)
                })
            &&& count > 0 && (forall|i: int| 0 <= i < count ==> #[trigger] readers[i] is Finished)
                ==> {
                &&& exists|first: int| 0 <= first < count && was_served(#[trigger] readers[first])
                &&& !after.store.contains_key(id)
            }
        }),
{
    let winner = lemma_race(world, id, count, schedule);
    let (after, readers) = interleave(world, readers_at_start(id, count), schedule);
    let url = world.store[id].original_url;
    assert forall|i: int| 0 <= i < count implies (#[trigger] readers[i] matches Reader::Finished(
        outcome,
    ) ==> {
        ||| outcome == Ok::<Seq<char>, ApiErrorView>(url)
        ||| outcome == Err::<Seq<char>, ApiErrorView>(ApiErrorView::Gone)
        ||| outcome == Err::<Seq<char>, ApiErrorView>(ApiErrorView::NotFound)
    }) by {
        assert(is_waiting(readers[i], id, url) || has_lost(readers[i], id) || has_won(
            readers[i],
            id,
            url,
        ));
    }
    assert forall|i: int, j: int|
        0 <= i < count && 0 <= j < count && was_served(#[trigger] readers[i]) && was_served(
            #[trigger] readers[j],
        ) implies i == j by {
        match winner {
            None => {
                assert(is_waiting(readers[i], id, url));
            },
            Some(first) => {
                if i != first {
                    assert(is_waiting(readers[i], id, url) || has_lost(readers[i], id));
                }
                if j != first {
                    assert(is_waiting(readers[j], id, url) || has_lost(readers[j], id));
                }
            },
        }
    }
    if count > 0 && (forall|i: int| 0 <= i < count ==> #[trigger] readers[i] is Finished) {
        assert(readers[0] is Finished);
        match winner {
            None => {
                assert(is_waiting(readers[0], id, url));
            },
            Some(first) => {
                assert(readers[first] is Finished);
                assert(was_served(readers[first]));
            },
        }
    }
}

} // verus!
