use chrono::Datelike;
use hexagram::date::Date;
use hexagram::thrower::Thrower;

fn today() -> Date {
    let now = chrono::Local::now().date_naive();
    Date::new(now.year() as u16, now.month() as u8, now.day() as u8).unwrap()
}

#[test]
fn test_throwing() {
    // Try lots of throws to give us some confidence that the random logic
    // always falls within the expected bounds.

    let prompt = String::from("Once there was a way to get back home.").into_bytes();
    let mut thrower = Thrower::new(&prompt, &today());

    for _ in 0..1_000_000 {
        thrower.throw();
    }

    thrower.hexagram();
}

#[test]
fn test_throw_stability() {}

#[test]
fn line_codes_in_range_million() {
    let prompt = b"range check".to_vec();
    let date = Date::new(2024, 1, 1).unwrap();
    let mut thrower = Thrower::new(&prompt, &date);
    for _ in 0..1_000_000 {
        let code = thrower.throw().code();
        assert!(code == 6 || code == 7 || code == 8 || code == 9);
    }
}

#[test]
fn distribution_over_a_million_draws() {
    let prompt = b"distribution check".to_vec();
    let date = Date::new(2024, 1, 1).unwrap();
    let mut thrower = Thrower::new(&prompt, &date);
    let mut counts = [0u32; 4];
    for _ in 0..1_000_000 {
        counts[(thrower.throw().code() - 6) as usize] += 1;
    }
    // Expected: 6 and 9 each 1/8 (125000), 7 and 8 each 3/8 (375000).
    // The tolerance is many standard deviations wide.
    assert!((counts[0] as i64 - 125_000).abs() < 5_000, "code 6: {}", counts[0]);
    assert!((counts[1] as i64 - 375_000).abs() < 5_000, "code 7: {}", counts[1]);
    assert!((counts[2] as i64 - 375_000).abs() < 5_000, "code 8: {}", counts[2]);
    assert!((counts[3] as i64 - 125_000).abs() < 5_000, "code 9: {}", counts[3]);
}

#[test]
fn coins_are_two_or_three() {
    let prompt = b"coins".to_vec();
    let date = Date::new(2024, 6, 15).unwrap();
    let mut thrower = Thrower::new(&prompt, &date);
    for _ in 0..10_000 {
        let c = thrower.coin();
        assert!(c == 2 || c == 3);
    }
}
