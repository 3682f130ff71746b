//! The timing attack: a warm-up, a short window in which the attack key
//! decides the damage, and a cooldown.

use vstd::prelude::*;
use crate::timer::OneShotTimer;

verus! {

/// One second, in nanoseconds: the warm-up before the window opens.
pub const WARMUP_NANOS: u64 = 1_000_000_000;

/// Half a second, in nanoseconds: the window in which to strike.
pub const ACTION_NANOS: u64 = 500_000_000;

/// Half a second, in nanoseconds: the rest after the strike.
pub const COOLDOWN_NANOS: u64 = 500_000_000;

/// Where combat stands.
#[derive(Clone, Copy, Debug, PartialEq, Eq, Structural, Hash, Default)]
pub enum CombatState {
    #[default]
    Idle,
    PlayerSelecting,
    PlayerAttacking,
    EnemyAttacking,
}

/// How well a strike was timed within the window.
#[derive(Clone, Copy, Debug, PartialEq, Eq, Structural)]
pub enum AttackTiming {
    Early,
    Critical,
    Late,
}

/// The stage of a timing attack.
#[derive(Clone, Copy, Debug, PartialEq, Eq, Structural)]
pub enum AttackStage {
    Warmup,
    Action,
    CoolDown,
}

/// The weapons a player can hold.
#[derive(Clone, Copy, Debug, PartialEq, Eq, Structural)]
pub enum WeaponType {
    Sword,
    Magic,
    Arrow,
}

/// A timing attack under way. The multiplier is kept in halves: 2 is the
/// plain damage, 4 the double, 1 the half.
#[derive(Clone, Copy, Debug, PartialEq, Eq, Structural)]
pub struct TimingAttack {
    pub stage: AttackStage,
    pub warmup_timer: OneShotTimer,
    pub action_timer: OneShotTimer,
    pub cooldown_timer: OneShotTimer,
    pub damage_multiplier_halves: u8,
}

/// A strike that a timing attack lets loose.
#[derive(Clone, Copy, Debug, PartialEq, Eq, Structural)]
pub struct TimedStrike {
    pub damage: i32,
    pub timing: AttackTiming,
}

/// What one tick of a timing attack brings about.
#[derive(Clone, Copy, Debug, PartialEq, Eq, Structural)]
pub struct TimingOutcome {
    /// The strike let loose by the attack key, if it was pressed in the
    /// window.
    pub struck: Option<TimedStrike>,
    /// The late strike let loose by the window running out.
    pub timed_out: Option<TimedStrike>,
    /// The attack is over: the cooldown has run out.
    pub finished: bool,
}

/// The timing of a strike made when `elapsed` of a window of `duration`
/// has passed: early in the first three tenths, late after the seventh,
/// critical between.
pub open spec fn timing_at(elapsed: int, duration: int) -> AttackTiming {
    if 10 * elapsed < 3 * duration {
        AttackTiming::Early
    } else if 10 * elapsed > 7 * duration {
        AttackTiming::Late
    } else {
        AttackTiming::Critical
    }
}

/// The multiplier of a timing, in halves: double for a critical strike,
/// half for any other.
pub open spec fn multiplier_halves(timing: AttackTiming) -> int {
    match timing {
        AttackTiming::Critical => 4,
        _ => 1,
    }
}

/// The damage a strike of the given timing does: twice the base damage,
/// kept inside `i32`, for a critical strike; half of it, rounded toward
/// zero, for any other.
pub open spec fn timed_damage(base: int, timing: AttackTiming) -> int {
    match timing {
        AttackTiming::Critical => if 2 * base > i32::MAX {
            i32::MAX as int
        } else if 2 * base < i32::MIN {
            i32::MIN as int
        } else {
            2 * base
        },
        _ => if base >= 0 {
            base / 2
        } else {
            -((-base) / 2)
        },
    }
}

/// The state of a timing attack after one tick, and what the tick brought
/// about.
pub open spec fn timing_step(
    attack: TimingAttack,
    strike_pressed: bool,
    delta_nanos: u64,
    base_damage: i32,
) -> (TimingAttack, TimingOutcome) {
    match attack.stage {
        AttackStage::Warmup => {
            let timer = attack.warmup_timer.after(delta_nanos);
            (
                TimingAttack {
                    warmup_timer: timer,
                    stage: if timer.finished() {
                        AttackStage::Action
                    } else {
                        AttackStage::Warmup
                    },
                    ..attack
                },
                TimingOutcome { struck: None, timed_out: None, finished: false },
            )
        },
        AttackStage::Action => {
            let timer = attack.action_timer.after(delta_nanos);
            let timing = timing_at(timer.elapsed_nanos as int, timer.duration_nanos as int);
            (
                TimingAttack {
                    action_timer: timer,
                    stage: if strike_pressed || timer.finished() {
                        AttackStage::CoolDown
                    } else {
                        AttackStage::Action
                    },
                    damage_multiplier_halves: if strike_pressed {
                        multiplier_halves(timing) as u8
                    } else {
                        attack.damage_multiplier_halves
                    },
                    ..attack
                },
                TimingOutcome {
                    struck: if strike_pressed {
                        Some(
                            TimedStrike {
                                damage: timed_damage(base_damage as int, timing) as i32,
                                timing,
                            },
                        )
                    } else {
                        None
                    },
                    timed_out: if timer.finished() {
                        Some(
                            TimedStrike {
                                damage: timed_damage(base_damage as int, AttackTiming::Late) as i32,
                                timing: AttackTiming::Late,
                            },
                        )
                    } else {
                        None
                    },
                    finished: false,
                },
            )
        },
        AttackStage::CoolDown => {
            let timer = attack.cooldown_timer.after(delta_nanos);
            (
                TimingAttack { cooldown_timer: timer, ..attack },
                TimingOutcome { struck: None, timed_out: None, finished: timer.finished() },
            )
        },
    }
}

/// A strike in the middle of the window is critical and does double
/// damage; a strike at its very start or end does half.
pub proof fn the_middle_of_the_window_is_critical(duration: int, base: int)
    requires
        duration > 0,
        0 <= base <= i32::MAX / 2,
    ensures
        timing_at(duration / 2, duration) == AttackTiming::Critical || duration == 1,
        timing_at(0, duration) == AttackTiming::Early,
        timing_at(duration, duration) == AttackTiming::Late,
        timed_damage(base, AttackTiming::Critical) == 2 * base,
        timed_damage(base, AttackTiming::Early) == base / 2,
        timed_damage(base, AttackTiming::Late) == base / 2,
{
}

impl TimingAttack {
    /// A timing attack at the start of its warm-up.
    pub fn new() -> (attack: TimingAttack)
        ensures
            attack == (TimingAttack {
                stage: AttackStage::Warmup,
                warmup_timer: OneShotTimer { elapsed_nanos: 0, duration_nanos: WARMUP_NANOS },
                action_timer: OneShotTimer { elapsed_nanos: 0, duration_nanos: ACTION_NANOS },
                cooldown_timer: OneShotTimer { elapsed_nanos: 0, duration_nanos: COOLDOWN_NANOS },
                damage_multiplier_halves: 2,
            }),
    {
        TimingAttack {
            stage: AttackStage::Warmup,
            warmup_timer: OneShotTimer::new(WARMUP_NANOS),
            action_timer: OneShotTimer::new(ACTION_NANOS),
            cooldown_timer: OneShotTimer::new(COOLDOWN_NANOS),
            damage_multiplier_halves: 2,
        }
    }
}

/// The timing of a strike made when the window's timer stands as given.
pub fn classify_timing(timer: &OneShotTimer) -> (timing: AttackTiming)
    ensures
        timing == timing_at(timer.elapsed_nanos as int, timer.duration_nanos as int),
{
    let elapsed: u128 = timer.elapsed_nanos as u128;
    let duration: u128 = timer.duration_nanos as u128;
    if 10 * elapsed < 3 * duration {
        AttackTiming::Early
    } else if 10 * elapsed > 7 * duration {
        AttackTiming::Late
    } else {
        AttackTiming::Critical
    }
}

/// The damage of a strike of the given timing.
pub fn damage_for(base_damage: i32, timing: AttackTiming) -> (damage: i32)
    ensures
        damage == timed_damage(base_damage as int, timing),
{
    let base: i64 = base_damage as i64;
    match timing {
        AttackTiming::Critical => {
            let doubled: i64 = 2 * base;
            if doubled > i32::MAX as i64 {
                i32::MAX
            } else if doubled < i32::MIN as i64 {
                i32::MIN
            } else {
                doubled as i32
            }
        },
        _ => {
            if base >= 0 {
                (base / 2) as i32
            } else {
                (-((-base) / 2)) as i32
            }
        },
    }
}

/// Where combat stands after the mode key was looked at: pressing it while
/// idle starts the choice of a weapon. Nothing else changes the state here.
pub fn combat_state_system(state: CombatState, mode_pressed: bool) -> (next: CombatState)
    ensures
        next == if state == CombatState::Idle && mode_pressed {
            CombatState::PlayerSelecting
        } else {
            state
        },
{
    match state {
        CombatState::Idle => if mode_pressed {
            CombatState::PlayerSelecting
        } else {
            CombatState::Idle
        },
        other => other,
    }
}

/// One tick of a timing attack. In the warm-up the window opens once the
/// warm-up has run out. In the window the attack key strikes with the
/// timing of that moment, and the window running out strikes late; either
/// starts the cooldown. The attack is over once the cooldown has run out.
pub fn timing_attack_system(
    attack: &mut TimingAttack,
    strike_pressed: bool,
    delta_nanos: u64,
    base_damage: i32,
) -> (outcome: TimingOutcome)
    ensures
        (*final(attack), outcome) == timing_step(
            *old(attack),
            strike_pressed,
            delta_nanos,
            base_damage,
        ),
{
    let mut outcome = TimingOutcome { struck: None, timed_out: None, finished: false };
    match attack.stage {
        AttackStage::Warmup => {
            attack.warmup_timer.tick(delta_nanos);
            if attack.warmup_timer.is_finished() {
                attack.stage = AttackStage::Action;
            }
        },
        AttackStage::Action => {
            attack.action_timer.tick(delta_nanos);
            if strike_pressed {
                let timing = classify_timing(&attack.action_timer);
                attack.damage_multiplier_halves = match timing {
                    AttackTiming::Critical => 4,
                    _ => 1,
                };
                outcome.struck = Some(
                    TimedStrike { damage: damage_for(base_damage, timing), timing },
                );
                attack.stage = AttackStage::CoolDown;
            }
            if attack.action_timer.is_finished() {
                outcome.timed_out = Some(
                    TimedStrike {
                        damage: damage_for(base_damage, AttackTiming::Late),
                        timing: AttackTiming::Late,
                    },
                );
                attack.stage = AttackStage::CoolDown;
            }
        },
        AttackStage::CoolDown => {
            attack.cooldown_timer.tick(delta_nanos);
            outcome.finished = attack.cooldown_timer.is_finished();
        },
    }
    outcome
}

} // verus!
