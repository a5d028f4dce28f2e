use invasion::clock::Countdown;
use invasion::components::ChainedMeta;
use invasion::components::Explosion;
use invasion::components::ExplosionMode;
use invasion::components::FlameRadius;
use invasion::components::IdCounter;
use invasion::components::Scoring;
use invasion::components::Stepper;

fn stepper(steps: Vec<i32>) -> Stepper<FlameRadius, i32> {
    Stepper { marker: FlameRadius, current: 0, steps, timer: Countdown::new(100, true) }
}

#[test]
fn scoring_values() {
    assert_eq!(Scoring::Missile.points(), 50);
    assert_eq!(Scoring::Ufo.points(), 1000);
}

#[test]
fn stepper_hands_out_its_steps_in_order() {
    let mut stepper = stepper(vec![2, 8, 12]);
    assert_eq!(stepper.current(), Some(&2));
    assert!(!stepper.is_finished());
    assert_eq!(stepper.next(), Some(&2));
    assert_eq!(stepper.current(), Some(&8));
    assert_eq!(stepper.next(), Some(&8));
    assert_eq!(stepper.next(), Some(&12));
    assert_eq!(stepper.current, 3);
    assert!(stepper.is_finished());
    assert_eq!(stepper.current(), None);
    assert_eq!(stepper.next(), None);
    assert_eq!(stepper.current, 3);
    assert!(stepper.is_finished());
}

#[test]
fn stepper_without_steps_is_finished() {
    let stepper = stepper(vec![]);
    assert!(stepper.is_finished());
    assert_eq!(stepper.current(), None);
}

#[test]
fn stepper_past_its_list_yields_nothing() {
    let mut stepper = stepper(vec![2, 8]);
    stepper.current = 5;
    assert!(!stepper.is_finished());
    assert_eq!(stepper.next(), None);
    assert_eq!(stepper.current, 5);
    assert_eq!(stepper.current(), None);
}

#[test]
fn new_explosion_has_no_points() {
    let explosion = Explosion::new(ExplosionMode::Single);
    assert_eq!(explosion.score, 0);
    assert_eq!(explosion.combo, 0);
    assert_eq!(explosion.calculated_score(), 0);
    assert!(matches!(explosion.mode, ExplosionMode::Single));
}

#[test]
fn new_explosion_keeps_its_mode() {
    let mode = ExplosionMode::Chained(ChainedMeta { timer: Countdown::new(200, true), remaining: 4 });
    let explosion = Explosion::new(mode);
    match explosion.mode {
        ExplosionMode::Chained(meta) => assert_eq!(meta.remaining, 4),
        ExplosionMode::Single => panic!("the chain was lost"),
    }
}

#[test]
fn explosion_is_worth_its_points_once_for_each_kill() {
    let mut explosion = Explosion::new(ExplosionMode::Single);
    explosion.add_score(Scoring::Missile);
    assert_eq!((explosion.score, explosion.combo), (50, 1));
    assert_eq!(explosion.calculated_score(), 50);
    explosion.add_score(Scoring::Ufo);
    assert_eq!((explosion.score, explosion.combo), (1050, 2));
    assert_eq!(explosion.calculated_score(), 2100);
    explosion.add_score(Scoring::Missile);
    assert_eq!(explosion.calculated_score(), 3300);
}

#[test]
fn id_counter_counts_up() {
    let mut ids = IdCounter(0);
    assert_eq!(ids.next(), 1);
    assert_eq!(ids.next(), 2);
    assert_eq!(ids.0, 2);
}

#[test]
fn id_counter_starts_over_after_the_largest_number() {
    let mut ids = IdCounter(usize::MAX - 1);
    assert_eq!(ids.next(), usize::MAX);
    assert_eq!(ids.next(), 0);
    assert_eq!(ids.next(), 1);
}

#[test]
fn copy_of_a_chain_has_as_many_blasts_to_follow() {
    let mode = ExplosionMode::Chained(ChainedMeta { timer: Countdown::new(200, true), remaining: 3 });
    match mode.clone() {
        ExplosionMode::Chained(mut meta) => {
            assert_eq!(meta.remaining, 3);
            assert!(!meta.timer.fired(199_000_000));
            assert!(meta.timer.fired(1_000_000));
        }
        ExplosionMode::Single => panic!("the chain was lost"),
    }
    assert!(matches!(ExplosionMode::Single.clone(), ExplosionMode::Single));
}
