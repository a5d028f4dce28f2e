use invasion::clock::Countdown;

const MS: u64 = 1_000_000;

#[test]
fn new_countdown_runs_and_has_not_finished() {
    let timer = Countdown::new(100, false);
    assert!(!timer.paused());
    assert!(!timer.finished());
    assert!(!timer.just_finished());
}

#[test]
fn one_shot_finishes_once() {
    let mut timer = Countdown::new(100, false);
    timer.tick(60 * MS);
    assert!(!timer.finished());
    assert!(!timer.just_finished());
    timer.tick(40 * MS);
    assert!(timer.finished());
    assert!(timer.just_finished());
    timer.tick(500 * MS);
    assert!(timer.finished());
    assert!(!timer.just_finished());
}

#[test]
fn one_shot_finishes_one_nanosecond_before_and_at_its_duration() {
    let mut timer = Countdown::new(1, false);
    timer.tick(MS - 1);
    assert!(!timer.finished());
    timer.tick(1);
    assert!(timer.finished());
}

#[test]
fn repeating_countdown_wraps_around() {
    let mut timer = Countdown::new(100, true);
    timer.tick(70 * MS);
    assert!(!timer.just_finished());
    timer.tick(70 * MS);
    assert!(timer.just_finished());
    assert!(timer.finished());
    // 40 ms are left over from the wrap: 50 more do not reach the duration.
    timer.tick(50 * MS);
    assert!(!timer.just_finished());
    assert!(!timer.finished());
    timer.tick(10 * MS);
    assert!(timer.just_finished());
}

#[test]
fn fired_reports_the_tick_on_which_the_countdown_finished() {
    let mut timer = Countdown::new(100, true);
    assert!(!timer.fired(99 * MS));
    assert!(timer.fired(MS));
    assert!(!timer.fired(MS));
}

#[test]
fn paused_countdown_stands_still() {
    let mut timer = Countdown::new(100, false);
    timer.tick(90 * MS);
    timer.pause();
    assert!(timer.paused());
    timer.tick(1000 * MS);
    assert!(!timer.finished());
    assert!(!timer.just_finished());
    timer.unpause();
    assert!(!timer.paused());
    timer.tick(9 * MS);
    assert!(!timer.finished());
    timer.tick(MS);
    assert!(timer.finished());
}

#[test]
fn paused_repeating_countdown_forgets_that_it_finished() {
    let mut timer = Countdown::new(100, true);
    timer.tick(100 * MS);
    assert!(timer.finished());
    timer.pause();
    timer.tick(MS);
    assert!(!timer.finished());
    assert!(!timer.just_finished());
}

#[test]
fn paused_one_shot_remembers_that_it_finished() {
    let mut timer = Countdown::new(100, false);
    timer.tick(100 * MS);
    timer.pause();
    timer.tick(MS);
    assert!(timer.finished());
    assert!(!timer.just_finished());
}

#[test]
fn reset_starts_over_and_keeps_the_pause() {
    let mut timer = Countdown::new(100, false);
    timer.tick(100 * MS);
    timer.pause();
    timer.reset();
    assert!(timer.paused());
    assert!(!timer.finished());
    assert!(!timer.just_finished());
    timer.unpause();
    timer.tick(99 * MS);
    assert!(!timer.finished());
    timer.tick(MS);
    assert!(timer.finished());
}

#[test]
fn countdown_of_no_time_finishes_on_every_tick() {
    let mut timer = Countdown::new(0, true);
    timer.tick(0);
    assert!(timer.finished());
    assert!(timer.just_finished());
    timer.tick(5);
    assert!(timer.just_finished());
}

#[test]
fn longest_tick_on_longest_countdown_does_not_fail() {
    let mut timer = Countdown::new(u64::MAX, true);
    timer.tick(u64::MAX);
    assert!(!timer.finished());
    timer.tick(u64::MAX);
    assert!(!timer.finished());
}

#[test]
fn seconds_left_counts_whole_seconds() {
    let mut timer = Countdown::new(3000, false);
    assert_eq!(timer.seconds_left(), 3);
    timer.tick(999 * MS);
    assert_eq!(timer.seconds_left(), 3);
    timer.tick(MS);
    assert_eq!(timer.seconds_left(), 2);
    timer.tick(1500 * MS);
    assert_eq!(timer.seconds_left(), 1);
    timer.tick(500 * MS);
    assert_eq!(timer.seconds_left(), 0);
    assert!(timer.finished());
}

#[test]
fn seconds_left_drops_the_fraction_of_the_duration() {
    let timer = Countdown::new(2999, false);
    assert_eq!(timer.seconds_left(), 2);
}

#[test]
fn copy_of_a_countdown_is_in_the_same_state() {
    let mut timer = Countdown::new(1000, true);
    timer.tick(700 * MS);
    timer.pause();
    let mut copy = timer.clone();
    assert!(copy.paused());
    assert!(!copy.finished());
    assert_eq!(copy.seconds_left(), 1);
    copy.unpause();
    assert!(!copy.fired(299 * MS));
    assert!(copy.fired(MS));
    // The countdown that was copied has not moved.
    assert!(timer.paused());
    timer.unpause();
    assert!(!timer.fired(299 * MS));
    assert!(timer.fired(MS));
}
