use bevy::ecs::entity::Entity;
use bevy_turborand::RngComponent;
use invasion::clock::Countdown;
use invasion::components::DropBombTimer;
use invasion::components::IdCounter;
use invasion::enemies::drop_bombs;
use invasion::enemies::enemy_spawn_due;
use invasion::enemies::spawn_enemies;
use invasion::enemies::split_due;
use invasion::enemies::split_missiles;
use invasion::enemies::EnemyBatch;
use invasion::enemies::EnemyMissile;
use invasion::enemies::EnemySpawn;
use invasion::enemies::SplitTimer;
use invasion::components::MissileReserve;
use invasion::spawner::aim;
use invasion::spawner::missile;
use invasion::spawner::side;
use invasion::spawner::ufo;
use invasion::spawner::MissileSpawn;
use invasion::spawner::Origin;
use invasion::spawner::Side;
use invasion::stage::Stage;
use invasion::wave::wave_complete;
use invasion::wave::Wave;
use invasion::wave::WaveSpawnCount;

const MS: u64 = 1_000_000;

type Place = (i32, i32);

fn stage() -> Stage {
    Stage { enemies_count: 5, missile_spawn_max: 3, max_split: 2 }
}

fn check_aim(spawn: &MissileSpawn<Place>) {
    assert!(-123 < spawn.dest.x && spawn.dest.x < 123);
    assert_eq!(spawn.dest.y, -119);
}

#[test]
fn coin_toss_picks_the_side() {
    assert!(side(true) == Side::Right);
    assert!(side(false) == Side::Left);
}

#[test]
fn coin_toss_picks_the_sign_of_the_aim() {
    assert_eq!(aim(true, 40), 40);
    assert_eq!(aim(false, 40), -40);
    assert_eq!(aim(false, 0), 0);
}

#[test]
fn ufo_flies_within_its_band() {
    let mut rng = RngComponent::with_seed(3);
    let mut left = 0;
    let mut right = 0;
    let mut heights = std::collections::BTreeSet::new();
    for _ in 0..500 {
        let spawn = ufo(&mut rng);
        assert!(0 <= spawn.height && spawn.height < 105);
        heights.insert(spawn.height);
        if spawn.from == Side::Left {
            left += 1;
        } else {
            right += 1;
        }
        assert!(!spawn.bombs.0.paused());
        assert!(!spawn.bombs.0.finished());
    }
    assert!(left > 0 && right > 0);
    assert!(heights.len() > 50);
}

#[test]
fn ufo_may_drop_a_bomb_once_a_second() {
    let mut rng = RngComponent::with_seed(3);
    let mut spawn = ufo(&mut rng);
    assert!(!drop_bombs(&mut spawn.bombs, 999 * MS));
    assert!(drop_bombs(&mut spawn.bombs, MS));
    assert!(!drop_bombs(&mut spawn.bombs, 999 * MS));
    assert!(drop_bombs(&mut spawn.bombs, MS));
}

#[test]
fn bomb_timer_fires_when_its_time_is_up() {
    let mut timer = DropBombTimer(Countdown::new(1000, true));
    assert!(!drop_bombs(&mut timer, 500 * MS));
    assert!(drop_bombs(&mut timer, 500 * MS));
}

#[test]
fn missile_from_above_starts_on_the_upper_edge() {
    let mut rng = RngComponent::with_seed(5);
    let mut ids = IdCounter(10);
    let mut places = std::collections::BTreeSet::new();
    let mut aims = std::collections::BTreeSet::new();
    for n in 0..500 {
        let spawn: MissileSpawn<Place> = missile(&mut rng, &mut ids, None);
        match spawn.origin {
            Origin::Sky(spot) => {
                assert!(-247 <= spot.x && spot.x < 247);
                assert_eq!(spot.y, 135);
                places.insert(spot.x);
            }
            Origin::At(_) => panic!("the missile was released by nothing"),
        }
        check_aim(&spawn);
        aims.insert(spawn.dest.x);
        assert_eq!(spawn.lock_id, 11 + n);
        assert_eq!(ids.0, 11 + n);
    }
    assert!(places.len() > 100);
    assert!(aims.len() > 100);
    assert!(aims.iter().any(|&x| x < 0) && aims.iter().any(|&x| x > 0));
}

#[test]
fn released_missile_starts_where_it_was_released() {
    let mut rng = RngComponent::with_seed(5);
    let mut ids = IdCounter(usize::MAX);
    let spawn = missile(&mut rng, &mut ids, Some((12, -7)));
    match spawn.origin {
        Origin::At(place) => assert_eq!(place, (12, -7)),
        Origin::Sky(_) => panic!("the missile came from above"),
    }
    check_aim(&spawn);
    assert_eq!(spawn.lock_id, 0);
}

#[test]
fn salvo_is_due_when_the_spawn_timer_fires() {
    let wave = Wave::new(3000);
    let mut timer = EnemySpawn(Countdown::new(2000, true));
    assert!(!enemy_spawn_due(&wave, &mut timer, 1999 * MS));
    assert!(enemy_spawn_due(&wave, &mut timer, MS));
    // The timer starts over each time it has fired.
    assert!(!enemy_spawn_due(&wave, &mut timer, 1999 * MS));
    assert!(enemy_spawn_due(&wave, &mut timer, 500 * MS));
    assert!(!enemy_spawn_due(&wave, &mut timer, 1999 * MS));
    assert!(enemy_spawn_due(&wave, &mut timer, MS));
}

#[test]
fn no_salvo_is_due_during_the_pause_between_waves() {
    let mut wave = Wave::new(3000);
    let mut count = WaveSpawnCount(5);
    let mut ammo = MissileReserve(0);
    wave_complete(&mut wave, &mut count, &mut ammo);
    let mut timer = EnemySpawn(Countdown::new(2000, true));
    assert!(!enemy_spawn_due(&wave, &mut timer, 5000 * MS));
    assert!(!timer.0.just_finished());
    // The timer stood still: it needs its whole time once the pause is over.
    let wave = Wave::new(3000);
    assert!(!enemy_spawn_due(&wave, &mut timer, 1999 * MS));
    assert!(enemy_spawn_due(&wave, &mut timer, MS));
}

#[test]
fn salvo_holds_missiles_within_the_bounds_of_the_wave() {
    let mut rng = RngComponent::with_seed(11);
    let stage = stage();
    let wave = Wave::new(3000);
    let mut sizes = [0usize; 4];
    for _ in 0..300 {
        let mut ids = IdCounter(0);
        let mut count = WaveSpawnCount(0);
        let batch: EnemyBatch<Place> =
            spawn_enemies(&mut rng, &mut ids, &stage, &wave, &mut count, false, 0);
        assert!(batch.ufo.is_none());
        let size = batch.missiles.len();
        assert!(size <= 3);
        sizes[size] += 1;
        assert_eq!(count.0, size);
        assert_eq!(ids.0, size);
        for (n, spawn) in batch.missiles.iter().enumerate() {
            assert_eq!(spawn.lock_id, n + 1);
            assert!(matches!(spawn.origin, Origin::Sky(_)));
            check_aim(spawn);
        }
    }
    assert!(sizes.iter().all(|&seen| seen > 0));
}

#[test]
fn salvo_holds_as_many_missiles_as_the_lower_bound_at_least() {
    let mut rng = RngComponent::with_seed(13);
    let stage = stage();
    let mut wave = Wave::new(3000);
    wave.n = 30;
    assert_eq!(stage.missile_spawn_max(30), 6);
    let mut sizes = [0usize; 7];
    for _ in 0..300 {
        let mut ids = IdCounter(0);
        let mut count = WaveSpawnCount(0);
        let batch: EnemyBatch<Place> =
            spawn_enemies(&mut rng, &mut ids, &stage, &wave, &mut count, false, 4);
        let size = batch.missiles.len();
        assert!(4 <= size && size <= 6);
        sizes[size] += 1;
    }
    assert!(sizes[4] > 0 && sizes[5] > 0 && sizes[6] > 0);
}

#[test]
fn salvo_with_equal_bounds_holds_that_many_missiles() {
    let mut rng = RngComponent::with_seed(11);
    let stage = stage();
    let wave = Wave::new(3000);
    let mut ids = IdCounter(0);
    let mut count = WaveSpawnCount(0);
    let batch: EnemyBatch<Place> =
        spawn_enemies(&mut rng, &mut ids, &stage, &wave, &mut count, false, 3);
    assert_eq!(batch.missiles.len(), 3);
    assert_eq!(count.0, 3);
}

#[test]
fn salvo_with_a_ufo_counts_one_more_enemy() {
    let mut rng = RngComponent::with_seed(11);
    let stage = stage();
    let wave = Wave::new(3000);
    let mut ids = IdCounter(0);
    let mut count = WaveSpawnCount(2);
    let batch: EnemyBatch<Place> =
        spawn_enemies(&mut rng, &mut ids, &stage, &wave, &mut count, true, 3);
    let spawned = batch.ufo.expect("the roll asked for a UFO");
    assert!(0 <= spawned.height && spawned.height < 105);
    assert_eq!(batch.missiles.len(), 3);
    assert_eq!(count.0, 2 + 1 + 3);
}

#[test]
fn salvo_of_a_stage_without_missiles_holds_none() {
    let mut rng = RngComponent::with_seed(11);
    let stage = Stage { enemies_count: 5, missile_spawn_max: 0, max_split: 2 };
    let wave = Wave::new(3000);
    let mut ids = IdCounter(0);
    let mut count = WaveSpawnCount(0);
    let batch: EnemyBatch<Place> =
        spawn_enemies(&mut rng, &mut ids, &stage, &wave, &mut count, true, 0);
    assert!(batch.ufo.is_some());
    assert!(batch.missiles.is_empty());
    assert_eq!(count.0, 1);
    assert_eq!(ids.0, 0);
}

#[test]
fn split_is_tried_when_the_timer_fires() {
    let mut timer = SplitTimer(Countdown::new(1000, true));
    assert!(!split_due(&mut timer, 999 * MS));
    assert!(split_due(&mut timer, MS));
    assert!(!split_due(&mut timer, MS));
}

#[test]
fn nothing_splits_when_nothing_flies() {
    let mut rng = RngComponent::with_seed(2);
    let mut ids = IdCounter(4);
    let missiles: Vec<EnemyMissile<Place>> = Vec::new();
    let split = split_missiles(&mut rng, &mut ids, &stage(), &Wave::new(3000), &missiles);
    assert!(split.is_none());
    assert_eq!(ids.0, 4);
}

#[test]
fn missile_splits_into_the_pieces_of_the_wave() {
    let mut rng = RngComponent::with_seed(2);
    let missiles: Vec<EnemyMissile<Place>> = (0..4)
        .map(|n| EnemyMissile { entity: Entity::from_raw(n), pos: (n as i32 * 10, 50) })
        .collect();
    let mut wave = Wave::new(3000);
    wave.n = 20;
    let mut chosen = [false; 4];
    for _ in 0..200 {
        let mut ids = IdCounter(100);
        let split = split_missiles(&mut rng, &mut ids, &stage(), &wave, &missiles)
            .expect("a missile was in flight");
        assert!(split.index < 4);
        chosen[split.index] = true;
        assert_eq!(split.entity, missiles[split.index].entity);
        assert_eq!(split.pieces.len(), 4);
        assert_eq!(ids.0, 104);
        for (n, piece) in split.pieces.iter().enumerate() {
            match piece.origin {
                Origin::At(place) => assert_eq!(place, missiles[split.index].pos),
                Origin::Sky(_) => panic!("the piece came from above"),
            }
            check_aim(piece);
            assert_eq!(piece.lock_id, 101 + n);
        }
    }
    assert!(chosen.iter().all(|&c| c));
}

#[test]
fn stage_starts_with_the_first_wave() {
    let mut start = invasion::enemies::setup_resources(2000, 1500, 3000);
    assert_eq!(start.wave.n, 0);
    assert_eq!(start.spawn_count.0, 0);
    assert!(start.wave.fought());
    assert!(start.wave.completion_timeout.paused());
    assert_eq!(start.wave.completion_timeout.seconds_left(), 3);
    assert!(!enemy_spawn_due(&start.wave, &mut start.enemy_spawn, 1999 * MS));
    assert!(enemy_spawn_due(&start.wave, &mut start.enemy_spawn, MS));
    assert!(!split_due(&mut start.split_timer, 1499 * MS));
    assert!(split_due(&mut start.split_timer, MS));
}
