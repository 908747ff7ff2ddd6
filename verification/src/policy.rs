//! Destruction policies and their evaluation on a read.

use vstd::prelude::*;

verus! {

/// Rule that governs how long a link stays readable.
///
/// Time is counted in nanoseconds since the Unix epoch.
#[derive(Debug, PartialEq, Eq)]
pub enum DestructionMode {
    /// Never expires.
    Permanent,
    /// Expires once the clock reaches the deadline.
    TimeBomb(u128),
    /// Expires after the given number of further reads.
    ClickFuse(i32),
    /// Readable only while both sub-policies permit.
    Kombinatio(Box<DestructionMode>, Box<DestructionMode>),
}

/// What a policy decides about one read.
#[derive(Debug, Clone, PartialEq, Eq)]
pub enum Verdict {
    /// The read succeeds; `policy` is the state to keep, and `erase` says
    /// whether the record must be erased once the read has been served.
    Permit { policy: DestructionMode, erase: bool },
    /// The read is refused and the record must be erased.
    Deny,
}

/// The decision of `mode` on a read at time `now`.
pub open spec fn verdict_of(mode: DestructionMode, now: u128) -> Verdict
    decreases mode,
{
    match mode {
        DestructionMode::Permanent => Verdict::Permit { policy: mode, erase: false },
        DestructionMode::TimeBomb(deadline) => if now >= deadline {
            Verdict::Deny
        } else {
            Verdict::Permit { policy: mode, erase: false }
        },
        DestructionMode::ClickFuse(remaining) => if remaining <= 0 {
            Verdict::Deny
        } else {
            Verdict::Permit {
                policy: DestructionMode::ClickFuse((remaining - 1) as i32),
                erase: remaining == 1,
            }
        },
        DestructionMode::Kombinatio(left, right) => match (
            verdict_of(*left, now),
            verdict_of(*right, now),
        ) {
            (
                Verdict::Permit { policy: next_left, erase: erase_left },
                Verdict::Permit { policy: next_right, erase: erase_right },
            ) => Verdict::Permit {
                policy: DestructionMode::Kombinatio(Box::new(next_left), Box::new(next_right)),
                erase: erase_left || erase_right,
            },
            _ => Verdict::Deny,
        },
    }
}

/// Whether a permitted read changes the policy: true of a click fuse and of
/// every composite that holds one.
pub open spec fn is_counted(mode: DestructionMode) -> bool
    decreases mode,
{
    match mode {
        DestructionMode::Permanent => false,
        DestructionMode::TimeBomb(_) => false,
        DestructionMode::ClickFuse(_) => true,
        DestructionMode::Kombinatio(left, right) => is_counted(*left) || is_counted(*right),
    }
}

impl Clone for DestructionMode {
    fn clone(&self) -> (copy: Self)
        ensures
            copy == *self,
        decreases *self,
    {
        match self {
            DestructionMode::Permanent => DestructionMode::Permanent,
            DestructionMode::TimeBomb(deadline) => DestructionMode::TimeBomb(*deadline),
            DestructionMode::ClickFuse(remaining) => DestructionMode::ClickFuse(*remaining),
            DestructionMode::Kombinatio(left, right) => {
                let left_copy = (**left).clone();
                let right_copy = (**right).clone();
                DestructionMode::Kombinatio(Box::new(left_copy), Box::new(right_copy))
            },
        }
    }
}

impl Default for DestructionMode {
    fn default() -> (mode: Self)
        ensures
            mode == DestructionMode::Permanent,
    {
        DestructionMode::Permanent
    }
}

impl DestructionMode {
    /// Builds the composite of two sub-policies.
    pub fn kombinatio(left: DestructionMode, right: DestructionMode) -> (mode: Self)
        ensures
            mode == DestructionMode::Kombinatio(Box::new(left), Box::new(right)),
    {
        DestructionMode::Kombinatio(Box::new(left), Box::new(right))
    }

    /// Whether a permitted read changes this policy.
    pub fn is_counted(&self) -> (counted: bool)
        ensures
            counted == is_counted(*self),
        decreases *self,
    {
        match self {
            DestructionMode::Permanent => false,
            DestructionMode::TimeBomb(_) => false,
            DestructionMode::ClickFuse(_) => true,
            DestructionMode::Kombinatio(left, right) => left.is_counted() || right.is_counted(),
        }
    }

    /// Decides one read at time `now`.
    ///
    /// A permanent link is always readable. A time bomb is readable strictly
    /// before its deadline. A click fuse with reads left gives one up, and the
    /// read that takes the last one also calls for erasure. A composite is
    /// readable only if both parts are, keeps both parts' new states, and
    /// calls for erasure as soon as either part does.
    pub fn evaluate(&self, now: u128) -> (verdict: Verdict)
        ensures
            verdict == verdict_of(*self, now),
        decreases *self,
    {
        match self {
            DestructionMode::Permanent => Verdict::Permit {
                policy: DestructionMode::Permanent,
                erase: false,
            },
            DestructionMode::TimeBomb(deadline) => {
                if now >= *deadline {
                    Verdict::Deny
                } else {
                    Verdict::Permit { policy: DestructionMode::TimeBomb(*deadline), erase: false }
                }
            },
            DestructionMode::ClickFuse(remaining) => {
                if *remaining <= 0 {
                    Verdict::Deny
                } else {
                    let left_over: i32 = *remaining - 1;
                    Verdict::Permit {
                        policy: DestructionMode::ClickFuse(left_over),
                        erase: left_over == 0,
                    }
                }
            },
            DestructionMode::Kombinatio(left, right) => {
                let first = left.evaluate(now);
                let second = right.evaluate(now);
                match (first, second) {
                    (
                        Verdict::Permit { policy: next_left, erase: erase_left },
                        Verdict::Permit { policy: next_right, erase: erase_right },
                    ) => Verdict::Permit {
                        policy: DestructionMode::Kombinatio(
                            Box::new(next_left),
                            Box::new(next_right),
                        ),
                        erase: erase_left || erase_right,
                    },
                    _ => Verdict::Deny,
                }
            },
        }
    }
}

impl Verdict {
    /// Whether the read is served.
    pub open spec fn permits(self) -> bool {
        self is Permit
    }

    /// Whether the record must be erased: on every denial, and on the
    /// permits that say so.
    pub open spec fn erases(self) -> bool {
        match self {
            Verdict::Permit { erase, .. } => erase,
            Verdict::Deny => true,
        }
    }

    /// Whether the read is served.
    pub fn is_permit(&self) -> (permitted: bool)
        ensures
            permitted == self.permits(),
    {
        match self {
            Verdict::Permit { .. } => true,
            Verdict::Deny => false,
        }
    }

    /// Whether the record must be erased.
    pub fn must_erase(&self) -> (erase: bool)
        ensures
            erase == self.erases(),
    {
        match self {
            Verdict::Permit { erase, .. } => *erase,
            Verdict::Deny => true,
        }
    }
}

/// The policy that is left when reads at the given times, in order, were all
/// permitted; `None` as soon as one of them was denied.
pub open spec fn after_reads(mode: DestructionMode, times: Seq<u128>) -> Option<DestructionMode>
    decreases times.len(),
{
    if times.len() == 0 {
        Some(mode)
    } else {
        match after_reads(mode, times.drop_last()) {
            Some(current) => match verdict_of(current, times.last()) {
                Verdict::Permit { policy, .. } => Some(policy),
                Verdict::Deny => None,
            },
            None => None,
        }
    }
}

/// A permanent link is readable at every time, keeps its policy and is never
/// erased by a read.
pub proof fn lemma_permanent_reads(times: Seq<u128>)
    ensures
        after_reads(DestructionMode::Permanent, times) == Some(DestructionMode::Permanent),
        forall|now: u128| #[trigger]
            verdict_of(DestructionMode::Permanent, now) == (Verdict::Permit {
                policy: DestructionMode::Permanent,
                erase: false,
            }),
    decreases times.len(),
{
    if times.len() > 0 {
        lemma_permanent_reads(times.drop_last());
    }
}

/// A click fuse of `n` reads permits exactly `n` reads, whenever they come:
/// after `k <= n` reads `n - k` are left, the read that takes the last one
/// calls for erasure and no earlier one does, and every read after it is
/// denied.
pub proof fn lemma_click_fuse_reads(n: i32, times: Seq<u128>)
    requires
        n >= 1,
    ensures
        times.len() <= n ==> after_reads(DestructionMode::ClickFuse(n), times) == Some(
            DestructionMode::ClickFuse((n - times.len()) as i32),
        ),
        times.len() > n ==> after_reads(DestructionMode::ClickFuse(n), times) is None,
        0 < times.len() <= n ==> verdict_of(
            after_reads(DestructionMode::ClickFuse(n), times.drop_last()).unwrap(),
            times.last(),
        ).permits(),
        0 < times.len() <= n ==> verdict_of(
            after_reads(DestructionMode::ClickFuse(n), times.drop_last()).unwrap(),
            times.last(),
        ).erases() == (times.len() == n),
        times.len() == n + 1 ==> verdict_of(
            after_reads(DestructionMode::ClickFuse(n), times.drop_last()).unwrap(),
            times.last(),
        ) == Verdict::Deny,
    decreases times.len(),
{
    if times.len() > 0 {
        lemma_click_fuse_reads(n, times.drop_last());
    }
}

/// A click fuse that was made with no reads left denies its first read.
pub proof fn lemma_spent_fuse_denies(remaining: i32, now: u128)
    requires
        remaining <= 0,
    ensures
        verdict_of(DestructionMode::ClickFuse(remaining), now) == Verdict::Deny,
{
}

/// A time bomb permits every read before its deadline, however many came
/// before, and leaves the policy as it was; from the deadline on it denies.
pub proof fn lemma_time_bomb_reads(deadline: u128, times: Seq<u128>, now: u128)
    requires
        forall|i: int| 0 <= i < times.len() ==> times[i] < deadline,
    ensures
        after_reads(DestructionMode::TimeBomb(deadline), times) == Some(
            DestructionMode::TimeBomb(deadline),
        ),
        now < deadline ==> verdict_of(DestructionMode::TimeBomb(deadline), now) == (
        Verdict::Permit { policy: DestructionMode::TimeBomb(deadline), erase: false }),
        now >= deadline ==> verdict_of(DestructionMode::TimeBomb(deadline), now) == Verdict::Deny,
    decreases times.len(),
{
    if times.len() > 0 {
        lemma_time_bomb_reads(deadline, times.drop_last(), now);
    }
}

/// A single click combined with a deadline: the first read before the
/// deadline is served and calls for erasure, and whatever the clock says
/// afterwards, the next read is denied.
pub proof fn lemma_one_click_before_deadline(deadline: u128, first: u128, second: u128)
    requires
        first < deadline,
    ensures
        verdict_of(
            DestructionMode::Kombinatio(
                Box::new(DestructionMode::ClickFuse(1)),
                Box::new(DestructionMode::TimeBomb(deadline)),
            ),
            first,
        ) == (Verdict::Permit {
            policy: DestructionMode::Kombinatio(
                Box::new(DestructionMode::ClickFuse(0)),
                Box::new(DestructionMode::TimeBomb(deadline)),
            ),
            erase: true,
        }),
        verdict_of(
            DestructionMode::Kombinatio(
                Box::new(DestructionMode::ClickFuse(0)),
                Box::new(DestructionMode::TimeBomb(deadline)),
            ),
            second,
        ) == Verdict::Deny,
{
    reveal_with_fuel(verdict_of, 3);
}

/// A composite permits exactly when both parts permit.
pub proof fn lemma_kombinatio_is_conjunction(
    left: DestructionMode,
    right: DestructionMode,
    now: u128,
)
    ensures
        verdict_of(DestructionMode::Kombinatio(Box::new(left), Box::new(right)), now).permits()
            <==> verdict_of(left, now).permits() && verdict_of(right, now).permits(),
        verdict_of(DestructionMode::Kombinatio(Box::new(left), Box::new(right)), now).erases()
            <==> verdict_of(left, now).erases() || verdict_of(right, now).erases(),
{
}

/// A permitted read changes the policy exactly when the policy is counted.
pub proof fn lemma_permit_changes_counted(mode: DestructionMode, now: u128)
    requires
        verdict_of(mode, now).permits(),
    ensures
        (verdict_of(mode, now)->policy != mode) <==> is_counted(mode),
        is_counted(verdict_of(mode, now)->policy) == is_counted(mode),
    decreases mode,
{
    match mode {
        DestructionMode::Kombinatio(left, right) => {
            lemma_permit_changes_counted(*left, now);
            lemma_permit_changes_counted(*right, now);
        },
        _ => {},
    }
}

/// The read that calls for erasure is the last one served: the policy it
/// leaves denies every later read, at any time.
pub proof fn lemma_erasing_read_is_last(mode: DestructionMode, now: u128, later: u128)
    requires
        verdict_of(mode, now).permits(),
        verdict_of(mode, now).erases(),
    ensures
        verdict_of(verdict_of(mode, now)->policy, later) == Verdict::Deny,
    decreases mode,
{
    match mode {
        DestructionMode::Kombinatio(left, right) => {
            if verdict_of(*left, now).erases() {
                lemma_erasing_read_is_last(*left, now, later);
            } else {
                lemma_erasing_read_is_last(*right, now, later);
            }
        },
        _ => {},
    }
}

/// Expiry is final: a policy that denies at one time denies at every later
/// time.
pub proof fn lemma_denial_is_final(mode: DestructionMode, now: u128, later: u128)
    requires
        verdict_of(mode, now) == Verdict::Deny,
        now <= later,
    ensures
        verdict_of(mode, later) == Verdict::Deny,
    decreases mode,
{
    match mode {
        DestructionMode::Kombinatio(left, right) => {
            if verdict_of(*left, now) == Verdict::Deny {
                lemma_denial_is_final(*left, now, later);
            } else {
                lemma_denial_is_final(*right, now, later);
            }
        },
        _ => {},
    }
}

/// The number of reads that the click fuses of a policy still allow: the
/// smallest count among them, and `None` where the policy holds no fuse.
pub open spec fn reads_left(mode: DestructionMode) -> Option<int>
    decreases mode,
{
    match mode {
        DestructionMode::Permanent => None,
        DestructionMode::TimeBomb(_) => None,
        DestructionMode::ClickFuse(remaining) => Some(
            if remaining < 0 {
                0
            } else {
                remaining as int
            },
        ),
        DestructionMode::Kombinatio(left, right) => match (reads_left(*left), reads_left(*right)) {
            (Some(a), Some(b)) => Some(
                if a <= b {
                    a
                } else {
                    b
                },
            ),
            (Some(a), None) => Some(a),
            (None, other) => other,
        },
    }
}

/// Reads only ever count down: a permitted read takes exactly one read from
/// a counted policy, never leaves a negative count, and calls for erasure
/// exactly when none is left.
pub proof fn lemma_reads_count_down(mode: DestructionMode, now: u128)
    requires
        verdict_of(mode, now).permits(),
    ensures
        reads_left(mode) is Some <==> is_counted(mode),
        is_counted(mode) ==> reads_left(mode).unwrap() >= 1,
        is_counted(mode) ==> reads_left(verdict_of(mode, now)->policy) == Some(
            reads_left(mode).unwrap() - 1,
        ),
        !is_counted(mode) ==> reads_left(verdict_of(mode, now)->policy) is None,
        verdict_of(mode, now).erases() <==> reads_left(verdict_of(mode, now)->policy) == Some(
            0int,
        ),
    decreases mode,
{
    match mode {
        DestructionMode::Kombinatio(left, right) => {
            lemma_reads_count_down(*left, now);
            lemma_reads_count_down(*right, now);
        },
        _ => {},
    }
}

/// A counted policy with no reads left denies.
pub proof fn lemma_no_reads_left_denies(mode: DestructionMode, now: u128)
    requires
        reads_left(mode) == Some(0int),
    ensures
        verdict_of(mode, now) == Verdict::Deny,
    decreases mode,
{
    match mode {
        DestructionMode::Kombinatio(left, right) => {
            if reads_left(*left) == Some(0int) {
                lemma_no_reads_left_denies(*left, now);
            } else {
                lemma_no_reads_left_denies(*right, now);
            }
        },
        _ => {},
    }
}

} // verus!
