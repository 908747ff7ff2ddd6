use emoji_links::policy::{DestructionMode, Verdict};

const SECOND: u128 = 1_000_000_000;

#[test]
fn default_policy_is_permanent() {
    assert_eq!(DestructionMode::default(), DestructionMode::Permanent);
}

#[test]
fn permanent_always_permits_and_never_erases() {
    for now in [0u128, 1, SECOND, u128::MAX] {
        assert_eq!(
            DestructionMode::Permanent.evaluate(now),
            Verdict::Permit { policy: DestructionMode::Permanent, erase: false }
        );
    }
}

#[test]
fn time_bomb_permits_strictly_before_the_deadline() {
    let bomb = DestructionMode::TimeBomb(100 * SECOND);
    for _ in 0..10 {
        assert_eq!(
            bomb.evaluate(100 * SECOND - 1),
            Verdict::Permit { policy: DestructionMode::TimeBomb(100 * SECOND), erase: false }
        );
    }
    assert_eq!(bomb.evaluate(0), Verdict::Permit { policy: bomb.clone(), erase: false });
}

#[test]
fn time_bomb_denies_at_and_after_the_deadline() {
    let bomb = DestructionMode::TimeBomb(100 * SECOND);
    assert_eq!(bomb.evaluate(100 * SECOND), Verdict::Deny);
    assert_eq!(bomb.evaluate(100 * SECOND + 1), Verdict::Deny);
    assert_eq!(bomb.evaluate(u128::MAX), Verdict::Deny);
    assert!(bomb.evaluate(100 * SECOND).must_erase());
}

#[test]
fn time_bomb_with_deadline_zero_is_expired_from_the_start() {
    assert_eq!(DestructionMode::TimeBomb(0).evaluate(0), Verdict::Deny);
}

#[test]
fn click_fuse_of_two_permits_two_reads_and_denies_the_third() {
    let first = DestructionMode::ClickFuse(2).evaluate(5);
    assert_eq!(first, Verdict::Permit { policy: DestructionMode::ClickFuse(1), erase: false });
    let second = DestructionMode::ClickFuse(1).evaluate(6);
    assert_eq!(second, Verdict::Permit { policy: DestructionMode::ClickFuse(0), erase: true });
    let third = DestructionMode::ClickFuse(0).evaluate(7);
    assert_eq!(third, Verdict::Deny);
}

#[test]
fn click_fuse_counts_down_exactly_n_times() {
    for n in 1..=20 {
        let mut policy = DestructionMode::ClickFuse(n);
        let mut served = 0;
        let mut erased_at = None;
        loop {
            match policy.evaluate(9) {
                Verdict::Permit { policy: next, erase } => {
                    served += 1;
                    if erase {
                        assert_eq!(erased_at, None);
                        erased_at = Some(served);
                    }
                    policy = next;
                }
                Verdict::Deny => break,
            }
        }
        assert_eq!(served, n);
        assert_eq!(erased_at, Some(n));
        assert_eq!(policy, DestructionMode::ClickFuse(0));
    }
}

#[test]
fn click_fuse_made_without_reads_denies_the_first_read() {
    assert_eq!(DestructionMode::ClickFuse(0).evaluate(1), Verdict::Deny);
    assert_eq!(DestructionMode::ClickFuse(-1).evaluate(1), Verdict::Deny);
    assert_eq!(DestructionMode::ClickFuse(i32::MIN).evaluate(1), Verdict::Deny);
    assert!(DestructionMode::ClickFuse(0).evaluate(1).must_erase());
}

#[test]
fn click_fuse_at_the_largest_count() {
    assert_eq!(
        DestructionMode::ClickFuse(i32::MAX).evaluate(1),
        Verdict::Permit { policy: DestructionMode::ClickFuse(i32::MAX - 1), erase: false }
    );
}

#[test]
fn one_click_and_a_future_deadline() {
    let policy =
        DestructionMode::kombinatio(DestructionMode::ClickFuse(1), DestructionMode::TimeBomb(1000));
    let first = policy.evaluate(10);
    let left =
        DestructionMode::kombinatio(DestructionMode::ClickFuse(0), DestructionMode::TimeBomb(1000));
    assert_eq!(first, Verdict::Permit { policy: left.clone(), erase: true });
    assert_eq!(left.evaluate(11), Verdict::Deny);
}

#[test]
fn kombinatio_denies_when_the_deadline_fires_first() {
    let policy =
        DestructionMode::kombinatio(DestructionMode::ClickFuse(5), DestructionMode::TimeBomb(1000));
    assert_eq!(
        policy.evaluate(999),
        Verdict::Permit {
            policy: DestructionMode::kombinatio(
                DestructionMode::ClickFuse(4),
                DestructionMode::TimeBomb(1000)
            ),
            erase: false
        }
    );
    assert_eq!(policy.evaluate(1000), Verdict::Deny);
}

#[test]
fn kombinatio_updates_both_parts() {
    let policy =
        DestructionMode::kombinatio(DestructionMode::ClickFuse(3), DestructionMode::ClickFuse(2));
    assert_eq!(
        policy.evaluate(0),
        Verdict::Permit {
            policy: DestructionMode::kombinatio(
                DestructionMode::ClickFuse(2),
                DestructionMode::ClickFuse(1)
            ),
            erase: false
        }
    );
}

#[test]
fn kombinatio_nests() {
    let inner =
        DestructionMode::kombinatio(DestructionMode::ClickFuse(2), DestructionMode::Permanent);
    let policy = DestructionMode::kombinatio(inner, DestructionMode::kombinatio(
        DestructionMode::TimeBomb(50),
        DestructionMode::ClickFuse(1),
    ));
    let expected = DestructionMode::kombinatio(
        DestructionMode::kombinatio(DestructionMode::ClickFuse(1), DestructionMode::Permanent),
        DestructionMode::kombinatio(DestructionMode::TimeBomb(50), DestructionMode::ClickFuse(0)),
    );
    assert_eq!(policy.evaluate(49), Verdict::Permit { policy: expected.clone(), erase: true });
    assert_eq!(policy.evaluate(50), Verdict::Deny);
    assert_eq!(expected.evaluate(0), Verdict::Deny);
}

#[test]
fn kombinatio_of_permanent_parts_changes_nothing() {
    let policy =
        DestructionMode::kombinatio(DestructionMode::Permanent, DestructionMode::Permanent);
    assert_eq!(policy.evaluate(3), Verdict::Permit { policy: policy.clone(), erase: false });
    assert!(!policy.is_counted());
}

#[test]
fn counted_policies_are_those_with_a_fuse() {
    assert!(!DestructionMode::Permanent.is_counted());
    assert!(!DestructionMode::TimeBomb(5).is_counted());
    assert!(DestructionMode::ClickFuse(5).is_counted());
    assert!(DestructionMode::kombinatio(
        DestructionMode::TimeBomb(5),
        DestructionMode::ClickFuse(1)
    )
    .is_counted());
}

#[test]
fn a_permit_changes_the_policy_exactly_when_it_is_counted() {
    let policies = vec![
        DestructionMode::Permanent,
        DestructionMode::TimeBomb(100),
        DestructionMode::ClickFuse(4),
        DestructionMode::kombinatio(DestructionMode::Permanent, DestructionMode::ClickFuse(2)),
        DestructionMode::kombinatio(DestructionMode::Permanent, DestructionMode::TimeBomb(100)),
    ];
    for policy in policies {
        match policy.evaluate(1) {
            Verdict::Permit { policy: next, .. } => {
                assert_eq!(next != policy, policy.is_counted());
            }
            Verdict::Deny => panic!("expected a permit"),
        }
    }
}

#[test]
fn clone_keeps_the_policy() {
    let policy = DestructionMode::kombinatio(
        DestructionMode::ClickFuse(7),
        DestructionMode::kombinatio(DestructionMode::TimeBomb(9), DestructionMode::Permanent),
    );
    assert_eq!(policy.clone(), policy);
}

#[test]
fn verdict_accessors() {
    let permit = Verdict::Permit { policy: DestructionMode::Permanent, erase: false };
    assert!(permit.is_permit());
    assert!(!permit.must_erase());
    let last = Verdict::Permit { policy: DestructionMode::ClickFuse(0), erase: true };
    assert!(last.is_permit());
    assert!(last.must_erase());
    assert!(!Verdict::Deny.is_permit());
    assert!(Verdict::Deny.must_erase());
}

#[test]
fn denial_is_final_as_time_goes_on() {
    let policy =
        DestructionMode::kombinatio(DestructionMode::TimeBomb(10), DestructionMode::ClickFuse(3));
    assert_eq!(policy.evaluate(10), Verdict::Deny);
    for later in [11u128, 100, u128::MAX] {
        assert_eq!(policy.evaluate(later), Verdict::Deny);
    }
}
