//! A model of a cache and a durable store that answer faithfully, and what
//! the protocols achieve when they are run against it.

use crate::erasure::{erasure_next, erasure_start, is_noise, ErasureStateView, ErasureStepView};
use crate::error::ApiErrorView;
use crate::exchange::{ReplyView, RequestView};
use crate::ident::is_generated_id;
use crate::models::{counted_once_more, fresh_record, ShortenRequestView, StoredUrlView};
use crate::policy::{
    lemma_permit_changes_counted, lemma_reads_count_down, verdict_of, DestructionMode, Verdict,
};
use crate::redirect::{redirect_next, redirect_start, RedirectStateView, RedirectStepView};
use crate::shorten::{
    alias_taken_text, invalid_timestamp_text, shorten_next, shorten_start, timestamp_storable,
    ShortenStateView, ShortenStepView,
};
use vstd::prelude::*;

verus! {

/// The contents of the durable store and of the cache.
pub struct World {
    /// The records, by identifier.
    pub store: Map<Seq<char>, StoredUrlView>,
    /// The cached destinations, by identifier.
    pub cache: Map<Seq<char>, Seq<char>>,
}

/// What faithful collaborators make of a request: the contents afterwards
/// and the reply.
///
/// An insert is refused where the identifier is taken. A conditional update
/// changes the policy and the read counter where the row is there and
/// holds the expected policy, and says whether it did. An overwrite and a
/// deletion of a row that is not there change nothing and are acknowledged.
pub open spec fn serve(world: World, request: RequestView) -> (World, ReplyView) {
    match request {
        RequestView::CacheGet { id } => (
            world,
            ReplyView::CacheValue(
                if world.cache.contains_key(id) {
                    Some(world.cache[id])
                } else {
                    None
                },
            ),
        ),
        RequestView::CacheSet { id, destination, ttl_seconds } => (
            World { cache: world.cache.insert(id, destination), ..world },
            ReplyView::CacheStored,
        ),
        RequestView::Exists { id } => (world, ReplyView::Exists(world.store.contains_key(id))),
        RequestView::Insert { record } => if world.store.contains_key(record.id) {
            (world, ReplyView::Duplicate)
        } else {
            (World { store: world.store.insert(record.id, record), ..world }, ReplyView::Inserted)
        },
        RequestView::Fetch { id } => (
            world,
            ReplyView::Record(
                if world.store.contains_key(id) {
                    Some(world.store[id])
                } else {
                    None
                },
            ),
        ),
        RequestView::UpdatePolicy { id, expected, policy, click_count } => if world.store.contains_key(
            id,
        ) && world.store[id].destruction_mode == expected {
            (
                World {
                    store: world.store.insert(
                        id,
                        StoredUrlView { destruction_mode: policy, click_count, ..world.store[id] },
                    ),
                    ..world
                },
                ReplyView::Updated(true),
            )
        } else {
            (world, ReplyView::Updated(false))
        },
        RequestView::Overwrite { id, destination } => (
            if world.store.contains_key(id) {
                World {
                    store: world.store.insert(
                        id,
                        StoredUrlView { original_url: destination, ..world.store[id] },
                    ),
                    ..world
                }
            } else {
                world
            },
            ReplyView::Overwritten,
        ),
        RequestView::Delete { id } => (
            World { store: world.store.remove(id), ..world },
            ReplyView::Deleted,
        ),
    }
}

/// The world without the record `id`.
pub open spec fn without_record(world: World, id: Seq<char>) -> World {
    World { store: world.store.remove(id), ..world }
}

/// What the clock and the generator give to one step of a read.
pub struct ReadTick {
    /// The time, in nanoseconds since the Unix epoch.
    pub now: u128,
    /// The noise that was drawn.
    pub noise: Seq<char>,
}

/// What the clock and the generator give to one step of a creation.
pub struct WriteTick {
    /// The time, in seconds since the Unix epoch.
    pub now: i64,
    /// The candidate identifier that was drawn.
    pub fresh: Seq<char>,
}

/// An erasure that is run for up to `steps` steps against faithful
/// collaborators: the contents afterwards, and the step it stands at.
pub open spec fn erasure_drive(
    world: World,
    state: ErasureStateView,
    request: RequestView,
    steps: nat,
) -> (World, ErasureStepView)
    decreases steps,
{
    if steps == 0 {
        (world, ErasureStepView::Next { state, request })
    } else {
        let (served, reply) = serve(world, request);
        match erasure_next(state, reply) {
            ErasureStepView::Next { state, request } => erasure_drive(
                served,
                state,
                request,
                (steps - 1) as nat,
            ),
            done => (served, done),
        }
    }
}

/// A read that is run against faithful collaborators, one step for each
/// tick: the contents afterwards, and the step it stands at.
pub open spec fn redirect_drive(
    world: World,
    state: RedirectStateView,
    request: RequestView,
    ticks: Seq<ReadTick>,
) -> (World, RedirectStepView)
    decreases ticks.len(),
{
    if ticks.len() == 0 {
        (world, RedirectStepView::Next { state, request })
    } else {
        let (served, reply) = serve(world, request);
        match redirect_next(state, reply, ticks[0].now, ticks[0].noise) {
            RedirectStepView::Next { state, request } => redirect_drive(
                served,
                state,
                request,
                ticks.drop_first(),
            ),
            done => (served, done),
        }
    }
}

/// A creation that is run against faithful collaborators, one step for
/// each tick: the contents afterwards, and the step it stands at.
pub open spec fn shorten_drive(
    world: World,
    state: ShortenStateView,
    request: RequestView,
    ticks: Seq<WriteTick>,
) -> (World, ShortenStepView)
    decreases ticks.len(),
{
    if ticks.len() == 0 {
        (world, ShortenStepView::Next { state, request })
    } else {
        let (served, reply) = serve(world, request);
        match shorten_next(
            state,
            reply,
            ticks[0].now,
            timestamp_storable(ticks[0].now),
            ticks[0].fresh,
        ) {
            ShortenStepView::Next { state, request } => shorten_drive(
                served,
                state,
                request,
                ticks.drop_first(),
            ),
            done => (served, done),
        }
    }
}

/// What a read of the link `id` at time `now` comes to: the contents
/// afterwards and the answer.
///
/// A cached destination is the answer, and nothing changes. Without one,
/// a missing record is not found; a denied read erases the record and is
/// gone; a permitted read is answered with the destination, and the record
/// is erased where the policy calls for it, and else keeps what the policy
/// changed, with the read counted.
pub open spec fn read_result(world: World, id: Seq<char>, now: u128) -> (
    World,
    Result<Seq<char>, ApiErrorView>,
) {
    if world.cache.contains_key(id) {
        (world, Ok(world.cache[id]))
    } else if !world.store.contains_key(id) {
        (world, Err(ApiErrorView::NotFound))
    } else {
        let record = world.store[id];
        match verdict_of(record.destruction_mode, now) {
            Verdict::Deny => (without_record(world, id), Err(ApiErrorView::Gone)),
            Verdict::Permit { policy, erase } => if erase {
                (without_record(world, id), Ok(record.original_url))
            } else if policy != record.destruction_mode {
                (
                    World {
                        store: world.store.insert(
                            id,
                            StoredUrlView {
                                destruction_mode: policy,
                                click_count: counted_once_more(record.click_count),
                                ..record
                            },
                        ),
                        ..world
                    },
                    Ok(record.original_url),
                )
            } else {
                (world, Ok(record.original_url))
            },
        }
    }
}

/// Erasure leaves nothing behind. Run against faithful collaborators, it
/// first replaces the destination of the record by the noise, which
/// differs from every destination that is not itself a block of noise,
/// then removes the record, and touches no other record and no cache
/// entry.
pub proof fn lemma_erasure_removes_record(world: World, id: Seq<char>, noise: Seq<char>, steps: nat)
    requires
        steps >= 2,
    ensures
        erasure_drive(world, erasure_start(id, noise).0, erasure_start(id, noise).1, steps) == (
            without_record(world, id),
            ErasureStepView::Done(Ok(())),
        ),
        !without_record(world, id).store.contains_key(id),
        world.store.contains_key(id) ==> erasure_drive(
            world,
            erasure_start(id, noise).0,
            erasure_start(id, noise).1,
            1,
        ).0.store[id].original_url == noise,
        world.store.contains_key(id) && is_noise(noise) && !is_noise(world.store[id].original_url)
            ==> erasure_drive(
            world,
            erasure_start(id, noise).0,
            erasure_start(id, noise).1,
            1,
        ).0.store[id].original_url != world.store[id].original_url,
{
    reveal_with_fuel(erasure_drive, 3);
    let (overwritten, _) = serve(world, erasure_start(id, noise).1);
    assert(overwritten.store.remove(id) =~= world.store.remove(id));
}

/// The read protocol computes [`read_result`]: run against faithful
/// collaborators for five steps or more, it ends with that answer and
/// leaves those contents, whatever noise is drawn. The time that counts is
/// the one at which the record arrives, which is the second step.
pub proof fn lemma_redirect_reads(world: World, id: Seq<char>, ticks: Seq<ReadTick>)
    requires
        ticks.len() >= 5,
    ensures
        redirect_drive(world, redirect_start(id).0, redirect_start(id).1, ticks) == (
            read_result(world, id, ticks[1].now).0,
            RedirectStepView::Done(read_result(world, id, ticks[1].now).1),
        ),
{
    reveal_with_fuel(redirect_drive, 6);
    let now = ticks[1].now;
    let t1 = ticks.drop_first();
    let t2 = t1.drop_first();
    let t3 = t2.drop_first();
    let t4 = t3.drop_first();
    assert(t1[0] == ticks[1]);
    assert(t2[0] == ticks[2]);
    assert(t3[0] == ticks[3]);
    assert(t4[0] == ticks[4]);
    if !world.cache.contains_key(id) && world.store.contains_key(id) {
        let record = world.store[id];
        match verdict_of(record.destruction_mode, now) {
            Verdict::Deny => {
                let (overwritten, _) = serve(world, erasure_start(id, t1[0].noise).1);
                assert(overwritten.store.remove(id) =~= world.store.remove(id));
            },
            Verdict::Permit { policy, erase } => {
                lemma_permit_changes_counted(record.destruction_mode, now);
                lemma_reads_count_down(record.destruction_mode, now);
                if erase {
                    let (updated, _) = serve(
                        world,
                        RequestView::UpdatePolicy {
                            id,
                            expected: record.destruction_mode,
                            policy,
                            click_count: counted_once_more(record.click_count),
                        },
                    );
                    let (overwritten, _) = serve(updated, erasure_start(id, t2[0].noise).1);
                    assert(overwritten.store.remove(id) =~= world.store.remove(id));
                }
            },
        }
    }
}

/// A read through a warm cache returns the cached destination and leaves
/// every record as it was: no read is counted and no deadline is looked at.
pub proof fn lemma_cache_hit_bypasses_policy(world: World, id: Seq<char>, ticks: Seq<ReadTick>)
    requires
        world.cache.contains_key(id),
        ticks.len() >= 1,
    ensures
        redirect_drive(world, redirect_start(id).0, redirect_start(id).1, ticks) == (
            world,
            RedirectStepView::Done(Ok(world.cache[id])),
        ),
{
    reveal_with_fuel(redirect_drive, 2);
}

/// What a creation that probes `id` comes to, run against faithful
/// collaborators for any number of steps.
///
/// Where it succeeds, the identifier was not in the store before, it is the
/// probed one or one of the candidates drawn since, the store holds exactly
/// one record more, a fresh one under that identifier, and the cache holds
/// the destination under it. Where it fails, nothing has changed, and the
/// failure is the conflict over a taken alias or the creation time that
/// cannot be stored.
pub proof fn lemma_shorten_creates(
    world: World,
    request: ShortenRequestView,
    id: Seq<char>,
    ticks: Seq<WriteTick>,
)
    ensures
        ({
            let (after, step) = shorten_drive(
                world,
                ShortenStateView::Probing { request, id },
                RequestView::Exists { id },
                ticks,
            );
            &&& step matches ShortenStepView::Done(Ok(got)) ==> {
                &&& !world.store.contains_key(got)
                &&& got == id || exists|i: int| 0 <= i < ticks.len() && (#[trigger] ticks[i]).fresh == got
                &&& request.custom_alias is Some ==> got == id
                &&& exists|i: int|
                    0 <= i < ticks.len() && after.store == world.store.insert(
                        got,
                        fresh_record(
                            got,
                            request.original_url,
                            (#[trigger] ticks[i]).now,
                            request.destruction,
                        ),
                    )
                &&& after.cache == world.cache.insert(got, request.original_url)
            }
            &&& step matches ShortenStepView::Done(Err(error)) ==> {
                &&& after == world
                &&& {
                    ||| error == ApiErrorView::Conflict(alias_taken_text())
                        && request.custom_alias is Some && world.store.contains_key(id)
                    ||| error == ApiErrorView::Internal(invalid_timestamp_text())
                }
            }
        }),
    decreases ticks.len(),
{
    reveal_with_fuel(shorten_drive, 4);
    if ticks.len() > 0 {
        let rest = ticks.drop_first();
        if world.store.contains_key(id) {
            if request.custom_alias is None {
                let next = ticks[0].fresh;
                lemma_shorten_creates(world, request, next, rest);
                let (after, step) = shorten_drive(
                    world,
                    ShortenStateView::Probing { request, id: next },
                    RequestView::Exists { id: next },
                    rest,
                );
                match step {
                    ShortenStepView::Done(Ok(got)) => {
                        if got == next {
                            assert(ticks[0].fresh == got);
                        } else {
                            let i = choose|i: int| 0 <= i < rest.len() && (#[trigger] rest[i]).fresh == got;
                            assert(ticks[i + 1].fresh == got);
                        }
                        let j = choose|j: int|
                            0 <= j < rest.len() && after.store == world.store.insert(
                                got,
                                fresh_record(
                                    got,
                                    request.original_url,
                                    (#[trigger] rest[j]).now,
                                    request.destruction,
                                ),
                            );
                        assert(ticks[j + 1].now == rest[j].now);
                    },
                    _ => {},
                }
            }
        } else if timestamp_storable(ticks[0].now) {
            if ticks.len() >= 3 {
                let t1 = rest.drop_first();
                assert(rest.len() >= 2 && t1.len() >= 1);
                let record = fresh_record(id, request.original_url, ticks[0].now, request.destruction);
                let (after, step) = shorten_drive(
                    world,
                    ShortenStateView::Probing { request, id },
                    RequestView::Exists { id },
                    ticks,
                );
                assert(step == ShortenStepView::Done(Ok(id)));
                assert(after.store == world.store.insert(id, record));
            } else if ticks.len() == 2 {
                assert(rest.drop_first().len() == 0);
            }
        }
    }
}

/// Allocation never hands out a taken identifier, and a created link is
/// there: a creation that succeeds against faithful collaborators returns
/// an identifier that the store did not hold, which is the alias where the
/// request names one, and afterwards the store holds the record under it.
pub proof fn lemma_created_id_was_free(
    world: World,
    request: ShortenRequestView,
    fresh: Seq<char>,
    ticks: Seq<WriteTick>,
)
    ensures
        ({
            let (after, step) = shorten_drive(
                world,
                shorten_start(request, fresh).0,
                shorten_start(request, fresh).1,
                ticks,
            );
            &&& step matches ShortenStepView::Done(Ok(got)) ==> {
                &&& !world.store.contains_key(got)
                &&& after.store.contains_key(got)
                &&& after.store[got].id == got
                &&& after.store[got].original_url == request.original_url
                &&& after.store[got].destruction_mode == request.destruction
                &&& after.store[got].click_count is None
                &&& after.store.remove(got) == world.store
                &&& request.custom_alias matches Some(alias) ==> got == alias
            }
            &&& step matches ShortenStepView::Done(Err(_)) ==> after == world
        }),
{
    let id = match request.custom_alias {
        Some(alias) => alias,
        None => fresh,
    };
    lemma_shorten_creates(world, request, id, ticks);
    let (after, step) = shorten_drive(
        world,
        shorten_start(request, fresh).0,
        shorten_start(request, fresh).1,
        ticks,
    );
    match step {
        ShortenStepView::Done(Ok(got)) => {
            assert(after.store.remove(got) =~= world.store);
    },
        _ => {},
    }
}

/// A read right after the write is served from the cache: it returns the
/// destination that was shortened and leaves the new record untouched,
/// whatever its policy and whatever the time.
pub proof fn lemma_read_after_write(
    world: World,
    request: ShortenRequestView,
    fresh: Seq<char>,
    write_ticks: Seq<WriteTick>,
    read_ticks: Seq<ReadTick>,
)
    requires
        read_ticks.len() >= 1,
    ensures
        ({
            let (after, step) = shorten_drive(
                world,
                shorten_start(request, fresh).0,
                shorten_start(request, fresh).1,
                write_ticks,
            );
            step matches ShortenStepView::Done(Ok(got)) ==> redirect_drive(
                after,
                redirect_start(got).0,
                redirect_start(got).1,
                read_ticks,
            ) == (after, RedirectStepView::Done(Ok(request.original_url)))
        }),
{
    let id = match request.custom_alias {
        Some(alias) => alias,
        None => fresh,
    };
    lemma_shorten_creates(world, request, id, write_ticks);
    let (after, step) = shorten_drive(
        world,
        shorten_start(request, fresh).0,
        shorten_start(request, fresh).1,
        write_ticks,
    );
    match step {
        ShortenStepView::Done(Ok(got)) => {
            lemma_cache_hit_bypasses_policy(after, got, read_ticks);
    },
        _ => {},
    }
}

/// The answers of reads of the link `id` at the given times, one after the
/// other, and the contents after the last.
pub open spec fn read_many(world: World, id: Seq<char>, times: Seq<u128>) -> (
    World,
    Seq<Result<Seq<char>, ApiErrorView>>,
)
    decreases times.len(),
{
    if times.len() == 0 {
        (world, Seq::empty())
    } else {
        let (after, answer) = read_result(world, id, times[0]);
        let (last, answers) = read_many(after, id, times.drop_first());
        (last, seq![answer] + answers)
    }
}

/// A link with a click fuse of `n` reads and a cold cache serves exactly
/// `n` reads: each of the first `n` returns the destination, the record is
/// erased with the `n`th, and every read after it finds nothing.
pub proof fn lemma_click_fuse_end_to_end(world: World, id: Seq<char>, n: i32, times: Seq<u128>)
    requires
        n >= 1,
        !world.cache.contains_key(id),
        world.store.contains_key(id),
        world.store[id].destruction_mode == DestructionMode::ClickFuse(n),
        times.len() > n,
    ensures
        read_many(world, id, times).1.len() == times.len(),
        forall|i: int|
            0 <= i < n ==> #[trigger] read_many(world, id, times).1[i] == Ok::<
                Seq<char>,
                ApiErrorView,
            >(world.store[id].original_url),
        forall|i: int|
            n <= i < times.len() ==> #[trigger] read_many(world, id, times).1[i] == Err::<
                Seq<char>,
                ApiErrorView,
            >(ApiErrorView::NotFound),
        read_many(world, id, times).0 == without_record(world, id),
        read_many(world, id, times.subrange(0, n - 1)).0.store.contains_key(id),
    decreases n,
{
    let (after, answer) = read_result(world, id, times[0]);
    let rest = times.drop_first();
    assert(times.subrange(0, n - 1).len() == n - 1);
    if n == 1 {
        lemma_reads_of_nothing(after, id, rest);
        assert(after.store.remove(id) =~= after.store);
    } else {
        lemma_click_fuse_end_to_end(after, id, (n - 1) as i32, rest);
        assert(after.store.remove(id) =~= world.store.remove(id));
        assert(times.subrange(0, n - 1).drop_first() =~= rest.subrange(0, n - 2));
        assert forall|i: int| 0 <= i < n implies #[trigger] read_many(world, id, times).1[i]
            == Ok::<Seq<char>, ApiErrorView>(world.store[id].original_url) by {
            if i > 0 {
                assert(read_many(world, id, times).1[i] == read_many(after, id, rest).1[i - 1]);
            }
        }
        assert forall|i: int| n <= i < times.len() implies #[trigger] read_many(
            world,
            id,
            times,
        ).1[i] == Err::<Seq<char>, ApiErrorView>(ApiErrorView::NotFound) by {
            assert(read_many(world, id, times).1[i] == read_many(after, id, rest).1[i - 1]);
        }
    }
}

/// Erasure is final: where neither the cache nor the store holds the link,
/// every read finds nothing and changes nothing.
pub proof fn lemma_reads_of_nothing(world: World, id: Seq<char>, times: Seq<u128>)
    requires
        !world.cache.contains_key(id),
        !world.store.contains_key(id),
    ensures
        read_many(world, id, times).0 == world,
        read_many(world, id, times).1.len() == times.len(),
        forall|i: int|
            0 <= i < times.len() ==> #[trigger] read_many(world, id, times).1[i] == Err::<
                Seq<char>,
                ApiErrorView,
            >(ApiErrorView::NotFound),
    decreases times.len(),
{
    if times.len() > 0 {
        lemma_reads_of_nothing(world, id, times.drop_first());
        assert forall|i: int| 0 <= i < times.len() implies #[trigger] read_many(
            world,
            id,
            times,
        ).1[i] == Err::<Seq<char>, ApiErrorView>(ApiErrorView::NotFound) by {
            if i > 0 {
                assert(read_many(world, id, times).1[i] == read_many(
                    world,
                    id,
                    times.drop_first(),
                ).1[i - 1]);
            }
        }
    }
}

/// A link with a deadline and a cold cache is served at every time before
/// the deadline, however often, and the record stays as it is; the first
/// read at or after the deadline finds it gone and erases it.
pub proof fn lemma_time_bomb_end_to_end(world: World, id: Seq<char>, deadline: u128, now: u128)
    requires
        !world.cache.contains_key(id),
        world.store.contains_key(id),
        world.store[id].destruction_mode == DestructionMode::TimeBomb(deadline),
    ensures
        now < deadline ==> read_result(world, id, now) == (
            world,
            Ok::<Seq<char>, ApiErrorView>(world.store[id].original_url),
        ),
        now >= deadline ==> read_result(world, id, now) == (
            without_record(world, id),
            Err::<Seq<char>, ApiErrorView>(ApiErrorView::Gone),
        ),
{
}

/// A free alias is taken: a creation that names an alias which the store
/// does not hold, at a time that can be stored, succeeds with that alias
/// in three steps, after which the store holds the fresh record and the
/// cache the destination. With a taken alias it ends in the conflict at
/// the first step, and at a time that cannot be stored in the error for it.
pub proof fn lemma_alias_creation(
    world: World,
    request: ShortenRequestView,
    fresh: Seq<char>,
    ticks: Seq<WriteTick>,
)
    requires
        request.custom_alias is Some,
        ticks.len() >= 3,
    ensures
        ({
            let alias = request.custom_alias->0;
            let run = shorten_drive(
                world,
                shorten_start(request, fresh).0,
                shorten_start(request, fresh).1,
                ticks,
            );
            &&& world.store.contains_key(alias) ==> run == (
                world,
                ShortenStepView::Done(Err(ApiErrorView::Conflict(alias_taken_text()))),
            )
            &&& !world.store.contains_key(alias) && !timestamp_storable(ticks[0].now) ==> run == (
                world,
                ShortenStepView::Done(Err(ApiErrorView::Internal(invalid_timestamp_text()))),
            )
            &&& !world.store.contains_key(alias) && timestamp_storable(ticks[0].now) ==> run == (
                World {
                    store: world.store.insert(
                        alias,
                        fresh_record(
                            alias,
                            request.original_url,
                            ticks[0].now,
                            request.destruction,
                        ),
                    ),
                    cache: world.cache.insert(alias, request.original_url),
                },
                ShortenStepView::Done(Ok(alias)),
            )
        }),
{
    reveal_with_fuel(shorten_drive, 4);
    let t1 = ticks.drop_first();
    let t2 = t1.drop_first();
    assert(t1.len() >= 2 && t2.len() >= 1);
}

} // verus!
