use emoji_links::ident::{
    generate_emoji_id, random_id, random_symbol, range_bounds, settle_probe, Allocation,
    ID_SYMBOLS, RANGE_COUNT,
};

fn in_some_range(symbol: char) -> bool {
    let code = symbol as u32;
    (0x1F600..=0x1F64F).contains(&code)
        || (0x1F300..=0x1F5FF).contains(&code)
        || (0x1F680..=0x1F6FF).contains(&code)
        || (0x1F900..=0x1F9FF).contains(&code)
        || (0x2600..=0x26FF).contains(&code)
}

#[test]
fn the_five_ranges() {
    assert_eq!(RANGE_COUNT, 5);
    assert_eq!(range_bounds(0), (0x1F600, 0x1F64F));
    assert_eq!(range_bounds(1), (0x1F300, 0x1F5FF));
    assert_eq!(range_bounds(2), (0x1F680, 0x1F6FF));
    assert_eq!(range_bounds(3), (0x1F900, 0x1F9FF));
    assert_eq!(range_bounds(4), (0x2600, 0x26FF));
}

#[test]
fn symbols_come_from_the_ranges() {
    for _ in 0..2000 {
        assert!(in_some_range(random_symbol()));
    }
}

#[test]
fn symbols_vary() {
    let first = random_symbol();
    let mut differs = false;
    for _ in 0..200 {
        if random_symbol() != first {
            differs = true;
        }
    }
    assert!(differs);
}

#[test]
fn generated_ids_have_three_symbols_from_the_ranges() {
    assert_eq!(ID_SYMBOLS, 3);
    for _ in 0..500 {
        let id = random_id();
        assert_eq!(id.chars().count(), 3);
        assert!(id.chars().all(in_some_range));
    }
}

#[test]
fn a_free_candidate_is_granted() {
    assert_eq!(
        generate_emoji_id("abc".to_string(), false),
        Allocation::Granted("abc".to_string())
    );
}

#[test]
fn a_taken_candidate_is_never_granted() {
    for _ in 0..100 {
        match generate_emoji_id("abc".to_string(), true) {
            Allocation::Granted(id) => panic!("granted the taken identifier {id}"),
            Allocation::Retry(next) => {
                assert_eq!(next.chars().count(), 3);
                assert!(next.chars().all(in_some_range));
            }
        }
    }
}

#[test]
fn settling_a_probe_with_a_given_candidate() {
    assert_eq!(
        settle_probe("old".to_string(), true, "new".to_string()),
        Allocation::Retry("new".to_string())
    );
    assert_eq!(
        settle_probe("old".to_string(), false, "new".to_string()),
        Allocation::Granted("old".to_string())
    );
}
