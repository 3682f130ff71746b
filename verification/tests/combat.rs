use tile_rooms::attack::{
    classify_timing, combat_state_system, damage_for, timing_attack_system, AttackStage,
    AttackTiming, CombatState, TimedStrike, TimingAttack, TimingOutcome,
};
use tile_rooms::direction::{direction_of_degrees, Direction};
use tile_rooms::geometry::WorldPos;
use tile_rooms::spawn::{spawn_grid, GridTile};
use tile_rooms::timer::OneShotTimer;

const QUIET: TimingOutcome = TimingOutcome { struck: None, timed_out: None, finished: false };

#[test]
fn a_timer_counts_up_to_its_duration_and_stays() {
    let mut timer = OneShotTimer::new(100);
    assert!(!timer.is_finished());
    timer.tick(99);
    assert_eq!(timer.elapsed_nanos, 99);
    assert!(!timer.is_finished());
    timer.tick(5);
    assert_eq!(timer.elapsed_nanos, 100);
    assert!(timer.is_finished());
    timer.tick(u64::MAX);
    assert_eq!(timer.elapsed_nanos, 100);
    timer.reset();
    assert_eq!(timer, OneShotTimer { elapsed_nanos: 0, duration_nanos: 100 });
    assert!(OneShotTimer::new(0).is_finished());
    let mut long = OneShotTimer::new(u64::MAX);
    long.tick(u64::MAX - 1);
    long.tick(u64::MAX - 1);
    assert_eq!(long.elapsed_nanos, u64::MAX);
}

#[test]
fn the_mode_key_starts_the_choice_only_from_idle() {
    assert_eq!(combat_state_system(CombatState::Idle, true), CombatState::PlayerSelecting);
    assert_eq!(combat_state_system(CombatState::Idle, false), CombatState::Idle);
    for state in
        [CombatState::PlayerSelecting, CombatState::PlayerAttacking, CombatState::EnemyAttacking]
    {
        assert_eq!(combat_state_system(state, true), state);
        assert_eq!(combat_state_system(state, false), state);
    }
    assert_eq!(CombatState::default(), CombatState::Idle);
}

#[test]
fn strikes_are_early_critical_or_late_by_tenths_of_the_window() {
    let at = |elapsed_nanos| OneShotTimer { elapsed_nanos, duration_nanos: 500_000_000 };
    assert_eq!(classify_timing(&at(0)), AttackTiming::Early);
    assert_eq!(classify_timing(&at(149_999_999)), AttackTiming::Early);
    assert_eq!(classify_timing(&at(150_000_000)), AttackTiming::Critical);
    assert_eq!(classify_timing(&at(350_000_000)), AttackTiming::Critical);
    assert_eq!(classify_timing(&at(350_000_001)), AttackTiming::Late);
    assert_eq!(classify_timing(&at(500_000_000)), AttackTiming::Late);
    let widest = OneShotTimer { elapsed_nanos: u64::MAX, duration_nanos: u64::MAX };
    assert_eq!(classify_timing(&widest), AttackTiming::Late);
}

#[test]
fn critical_strikes_double_and_others_halve() {
    assert_eq!(damage_for(25, AttackTiming::Critical), 50);
    assert_eq!(damage_for(25, AttackTiming::Early), 12);
    assert_eq!(damage_for(25, AttackTiming::Late), 12);
    assert_eq!(damage_for(-25, AttackTiming::Late), -12);
    assert_eq!(damage_for(-25, AttackTiming::Critical), -50);
    assert_eq!(damage_for(i32::MAX, AttackTiming::Critical), i32::MAX);
    assert_eq!(damage_for(i32::MIN, AttackTiming::Critical), i32::MIN);
    assert_eq!(damage_for(i32::MIN, AttackTiming::Early), -1_073_741_824);
    assert_eq!(damage_for(1, AttackTiming::Early), 0);
}

#[test]
fn a_timing_attack_runs_through_its_stages() {
    let mut attack = TimingAttack::new();
    assert_eq!(attack.stage, AttackStage::Warmup);
    assert_eq!(attack.damage_multiplier_halves, 2);
    assert_eq!(timing_attack_system(&mut attack, true, 999_999_999, 25), QUIET);
    assert_eq!(attack.stage, AttackStage::Warmup);
    assert_eq!(timing_attack_system(&mut attack, false, 1, 25), QUIET);
    assert_eq!(attack.stage, AttackStage::Action);
    assert_eq!(timing_attack_system(&mut attack, false, 200_000_000, 25), QUIET);
    assert_eq!(attack.stage, AttackStage::Action);
    let outcome = timing_attack_system(&mut attack, true, 50_000_000, 25);
    assert_eq!(
        outcome,
        TimingOutcome {
            struck: Some(TimedStrike { damage: 50, timing: AttackTiming::Critical }),
            timed_out: None,
            finished: false,
        }
    );
    assert_eq!(attack.stage, AttackStage::CoolDown);
    assert_eq!(attack.damage_multiplier_halves, 4);
    assert_eq!(timing_attack_system(&mut attack, true, 499_999_999, 25), QUIET);
    let done = timing_attack_system(&mut attack, false, 1, 25);
    assert_eq!(done, TimingOutcome { struck: None, timed_out: None, finished: true });
    assert_eq!(attack.stage, AttackStage::CoolDown);
}

#[test]
fn a_window_that_runs_out_strikes_late() {
    let mut attack = TimingAttack::new();
    timing_attack_system(&mut attack, false, 1_000_000_000, 30);
    let outcome = timing_attack_system(&mut attack, false, 500_000_000, 30);
    assert_eq!(
        outcome,
        TimingOutcome {
            struck: None,
            timed_out: Some(TimedStrike { damage: 15, timing: AttackTiming::Late }),
            finished: false,
        }
    );
    assert_eq!(attack.stage, AttackStage::CoolDown);
    assert_eq!(attack.damage_multiplier_halves, 2);
}

#[test]
fn a_strike_on_the_last_tick_of_the_window_counts_twice() {
    let mut attack = TimingAttack::new();
    timing_attack_system(&mut attack, false, 2_000_000_000, 30);
    let outcome = timing_attack_system(&mut attack, true, 700_000_000, 30);
    let late = Some(TimedStrike { damage: 15, timing: AttackTiming::Late });
    assert_eq!(outcome, TimingOutcome { struck: late, timed_out: late, finished: false });
    assert_eq!(attack.damage_multiplier_halves, 1);
    let mut early = TimingAttack::new();
    timing_attack_system(&mut early, false, 1_000_000_000, 31);
    let outcome = timing_attack_system(&mut early, true, 10, 31);
    assert_eq!(outcome.struck, Some(TimedStrike { damage: 15, timing: AttackTiming::Early }));
    assert_eq!(outcome.timed_out, None);
}

#[test]
fn the_backdrop_is_a_centered_checkerboard() {
    let squares = spawn_grid();
    assert_eq!(squares.len(), 400);
    let square = |x, y, dark| GridTile { position: WorldPos { x, y }, dark };
    assert_eq!(squares[0], square(-608_000, -608_000, true));
    assert_eq!(squares[1], square(-608_000, -544_000, false));
    assert_eq!(squares[20], square(-544_000, -608_000, false));
    assert_eq!(squares[21], square(-544_000, -544_000, true));
    assert_eq!(squares[399], square(608_000, 608_000, true));
    assert_eq!(squares.iter().filter(|square| square.dark).count(), 200);
    for (i, square) in squares.iter().enumerate() {
        let column = (i / 20) as i32;
        let row = (i % 20) as i32;
        assert_eq!(
            square.position,
            WorldPos { x: column * 64_000 - 608_000, y: row * 64_000 - 608_000 }
        );
    }
}

#[test]
fn every_direction_has_its_own_sprite() {
    let all = [
        (Direction::North, "characters/knight_hero/rotations/north.png"),
        (Direction::NorthEast, "characters/knight_hero/rotations/north-east.png"),
        (Direction::East, "characters/knight_hero/rotations/east.png"),
        (Direction::SouthEast, "characters/knight_hero/rotations/south-east.png"),
        (Direction::South, "characters/knight_hero/rotations/south.png"),
        (Direction::SouthWest, "characters/knight_hero/rotations/south-west.png"),
        (Direction::West, "characters/knight_hero/rotations/west.png"),
        (Direction::NorthWest, "characters/knight_hero/rotations/north-west.png"),
    ];
    for (direction, path) in all {
        assert_eq!(direction.get_sprite_path(), path);
    }
}

#[test]
fn degrees_fall_to_the_nearest_compass_point() {
    let bounds = [
        (0, 22, Direction::East),
        (23, 67, Direction::NorthEast),
        (68, 112, Direction::North),
        (113, 157, Direction::NorthWest),
        (158, 202, Direction::West),
        (203, 247, Direction::SouthWest),
        (248, 292, Direction::South),
        (293, 337, Direction::SouthEast),
        (338, 360, Direction::East),
    ];
    for (first, last, direction) in bounds {
        for degrees in first..=last {
            assert_eq!(direction_of_degrees(degrees), direction);
        }
    }
}
