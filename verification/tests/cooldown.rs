use release_song::cooldown::{
    check_cooldown, check_cooldown_at, refusal, refuse_unless, LastPlayedTracker, COOLDOWN_MINUTES,
    NANOS_PER_SECOND,
};

const PAUSE: u128 = 30 * 60 * NANOS_PER_SECOND;

#[test]
fn song_rests_for_half_an_hour() {
    let mut tracker = LastPlayedTracker::new(COOLDOWN_MINUTES);
    tracker.mark_played_at(0);
    assert_eq!(tracker.time_until_next_play_at(0), Some(1_800_000_000_000));
}

#[test]
fn song_may_be_played_first() {
    let tracker = LastPlayedTracker::new(30);
    assert!(tracker.can_play_now());
    assert!(tracker.can_play_at(0));
    assert_eq!(tracker.time_until_next_play(), None);
    assert_eq!(tracker.time_until_next_play_at(5), None);
    assert_eq!(check_cooldown(&tracker), None);
}

#[test]
fn pause_follows_a_play() {
    let mut tracker = LastPlayedTracker::new(30);
    tracker.mark_played();
    assert!(!tracker.can_play_now());
    let left = tracker.time_until_next_play().unwrap();
    assert!(left <= PAUSE);
    assert!(left > PAUSE - 60 * NANOS_PER_SECOND);
    let notice = check_cooldown(&tracker).unwrap();
    assert!(
        notice.starts_with("Music was recently played. Please wait 29m 5")
            || notice == "Music was recently played. Please wait 30m 0s before playing again."
    );
}

#[test]
fn pause_ends_on_the_nanosecond() {
    let mut tracker = LastPlayedTracker::new(30);
    tracker.mark_played_at(1000);
    assert!(!tracker.can_play_at(1000));
    assert!(!tracker.can_play_at(1000 + PAUSE - 1));
    assert!(tracker.can_play_at(1000 + PAUSE));
    assert!(tracker.can_play_at(u128::MAX));
    assert_eq!(tracker.time_until_next_play_at(1000), Some(PAUSE));
    assert_eq!(tracker.time_until_next_play_at(1000 + PAUSE - 1), Some(1));
    assert_eq!(tracker.time_until_next_play_at(1000 + PAUSE), Some(0));
    assert_eq!(tracker.time_until_next_play_at(999), Some(PAUSE));
}

#[test]
fn notices_tell_minutes_and_seconds() {
    let mut tracker = LastPlayedTracker::new(30);
    tracker.mark_played_at(0);
    assert_eq!(
        check_cooldown_at(&tracker, 61 * NANOS_PER_SECOND),
        Some("Music was recently played. Please wait 28m 59s before playing again.".to_string())
    );
    assert_eq!(
        check_cooldown_at(&tracker, PAUSE - 1),
        Some("Music was recently played. Please wait 0m 0s before playing again.".to_string())
    );
    assert_eq!(check_cooldown_at(&tracker, PAUSE), None);
    assert_eq!(
        refusal(125 * NANOS_PER_SECOND),
        "Music was recently played. Please wait 2m 5s before playing again."
    );
    assert_eq!(refuse_unless(true, None), None);
    assert_eq!(refuse_unless(false, Some(0)), Some(refusal(0)));
}

#[test]
fn no_pause_is_none() {
    let mut tracker = LastPlayedTracker::new(0);
    tracker.mark_played();
    assert!(tracker.can_play_now());
    assert_eq!(tracker.time_until_next_play(), Some(0));
    assert_eq!(check_cooldown(&tracker), None);
}

#[test]
fn clock_goes_on_after_a_play() {
    let mut tracker = LastPlayedTracker::new(30);
    tracker.mark_played();
    let first = tracker.time_until_next_play().unwrap();
    let second = tracker.time_until_next_play().unwrap();
    assert!(second <= first);
    tracker.mark_played();
    assert!(!tracker.can_play_now());
    assert!(tracker.time_until_next_play().unwrap() <= PAUSE);
}
