use solar_screen_brightness::time::{Span, Timestamp};

fn at(nanos: i128) -> Timestamp {
    Timestamp::from_nanos(nanos).unwrap()
}

const END: i128 = (1i128 << 63) * 1_000_000_000;

#[test]
fn timestamps_keep_their_nanoseconds() {
    assert_eq!(at(1_542_605_400_000_000_007).nanos(), 1_542_605_400_000_000_007);
    assert_eq!(at(-1).nanos(), -1);
    assert_eq!(Timestamp::from_epoch_secs(3).nanos(), 3_000_000_000);
}

#[test]
fn timestamps_have_a_range() {
    assert!(Timestamp::from_nanos(END).is_none());
    assert!(Timestamp::from_nanos(-END - 1).is_none());
    assert_eq!(at(END - 1).nanos(), END - 1);
    assert_eq!(at(-END).nanos(), -END);
    assert!(Timestamp::from_nanos(i128::MAX).is_none());
}

#[test]
fn seconds_are_added() {
    assert_eq!(at(5).add_secs(43_200).nanos(), 43_200_000_000_005);
    assert_eq!(at(5).checked_add_secs(1), Some(at(1_000_000_005)));
    assert_eq!(at(0).checked_add_secs(u64::MAX), None);
    assert_eq!(at(-END).checked_add_secs(u64::MAX), Some(at(END - 1_000_000_000)));
}

#[test]
fn order_of_timestamps() {
    assert!(at(7).at_or_after(&at(7)));
    assert!(at(8).at_or_after(&at(7)));
    assert!(!at(6).at_or_after(&at(7)));
}

#[test]
fn whole_seconds_are_rounded_down() {
    assert_eq!(at(1_999_999_999).epoch_secs(), 1);
    assert_eq!(at(0).epoch_secs(), 0);
}

#[test]
fn spans_do_not_get_negative() {
    let span = at(5_250_000_000).saturating_since(&at(1_000_000_000));
    assert_eq!(span, Span { secs: 4, nanos: 250_000_000 });
    assert_eq!(at(1).saturating_since(&at(2)), Span { secs: 0, nanos: 0 });
    assert_eq!(
        at(END - 1).saturating_since(&at(-END)),
        Span { secs: u64::MAX, nanos: 999_999_999 }
    );
}
