use framework::clock::{whole_secs_between, Timestamp};

fn at(nanos: i128) -> Timestamp {
    Timestamp { nanos }
}

#[test]
fn whole_seconds_round_down() {
    assert_eq!(whole_secs_between(at(0), at(1_999_999_999)), 1);
    assert_eq!(whole_secs_between(at(0), at(2_000_000_000)), 2);
    assert_eq!(whole_secs_between(at(500), at(500)), 0);
}

#[test]
fn whole_seconds_across_the_epoch() {
    assert_eq!(whole_secs_between(at(-1_500_000_000), at(1_000_000_000)), 2);
    assert_eq!(whole_secs_between(at(-3_000_000_000), at(-1_000_000_001)), 1);
}

#[test]
fn whole_seconds_over_the_widest_span() {
    let secs = whole_secs_between(at(i128::MIN), at(i128::MAX));
    assert_eq!(secs, u128::MAX / 1_000_000_000);
}
