//! The decisions in Samus's status scripts: down tilt, flashshift (her side
//! special), the charge shot's exit, and her projectiles.  The scripts'
//! calls into the game stay with the game side; each function here takes
//! what the script reads and says what it does.
use vstd::prelude::*;
use crate::common::{FrameTime, Situation, StatusKind};
use crate::samus::SamusVars;

verus! {

// ---------------------------------------------------------------------------
// Down tilt
// ---------------------------------------------------------------------------
/// What down tilt's main loop reads.
#[derive(Clone, Copy, Debug, PartialEq, Eq, Structural)]
pub struct AttackLw3Frame {
    pub situation: Situation,
    pub frame: FrameTime,
    /// The attack's combo precede flag.
    pub combo_precede: bool,
    /// The status is changing.
    pub status_changing: bool,
    pub combo_count: u64,
    /// The most hits of the tilt combo, as a parameter.
    pub combo_max: i32,
    /// The attack's combo flag.
    pub combo_enabled: bool,
    /// The pad shows a special trigger.
    pub special_trigger: bool,
    pub shinespark_ready: bool,
    /// The stick points forward past three quarters.
    pub stick_run: bool,
    /// The frames left to reserve a short-hop attack.
    pub jump_attack_frame: i32,
    pub stopping: bool,
    /// The reserved attack log.
    pub reserved_log: i64,
    pub motion_end: bool,
}

/// How fast down tilt's motion plays: slowed from frame 8 to 20 (at 0.7
/// of its rate, moving 1.8 times as fast); moving 1.7 times as fast again
/// with the speed boost.
#[derive(Clone, Copy, Debug, PartialEq, Eq, Structural)]
pub struct MotionPace {
    pub slowed: bool,
    pub boosted: bool,
}

/// What down tilt's main loop does, step by step.
#[derive(Clone, Copy, Debug, PartialEq, Eq, Structural)]
pub struct AttackLw3Plan {
    /// On the ground: the grounded steps below; in the air it falls.
    pub grounded: bool,
    /// Go on to the next hit of the tilt combo.
    pub combo: bool,
    /// From frame 7: jump cancels are open.
    pub jump_cancels: bool,
    /// From frame 7, special cancels into the morph ball at its frame 6.
    pub morph_cancel: bool,
    pub pace: MotionPace,
    /// With the speed boost from frame 20, forward on the stick runs.
    pub run_cancel: bool,
    /// A short-hop attack may be taken.
    pub jump_attack: bool,
    /// The reserved attack log is to be dropped.
    pub reset_log: bool,
    /// The motion ended: crouch.
    pub to_squat_wait: bool,
}

pub open spec fn spec_main_attack_lw3_loop(f: AttackLw3Frame) -> AttackLw3Plan {
    let grounded = f.situation != Situation::Air;
    AttackLw3Plan {
        grounded,
        combo: grounded && f.combo_precede && (f.status_changing || (f.combo_count
            < f.combo_max as u64 && f.combo_enabled)),
        jump_cancels: grounded && f.frame.ge(7),
        morph_cancel: grounded && f.frame.ge(7) && f.special_trigger,
        pace: MotionPace {
            slowed: f.frame.ge(8) && f.frame.le(20),
            boosted: f.shinespark_ready,
        },
        run_cancel: grounded && f.shinespark_ready && f.frame.ge(20) && f.stick_run,
        jump_attack: grounded && 0 < f.jump_attack_frame,
        reset_log: grounded && f.jump_attack_frame == 1 && f.stopping && f.reserved_log > 0,
        to_squat_wait: f.motion_end,
    }
}

/// Down tilt's main loop.
pub fn main_attack_lw3_loop(f: &AttackLw3Frame) -> (r: AttackLw3Plan)
    ensures
        r == spec_main_attack_lw3_loop(*f),
{
    let grounded = f.situation != Situation::Air;
    AttackLw3Plan {
        grounded,
        combo: grounded && f.combo_precede && (f.status_changing || (f.combo_count
            < f.combo_max as u64 && f.combo_enabled)),
        jump_cancels: grounded && f.frame.is_ge(7),
        morph_cancel: grounded && f.frame.is_ge(7) && f.special_trigger,
        pace: MotionPace {
            slowed: f.frame.is_ge(8) && f.frame.is_le(20),
            boosted: f.shinespark_ready,
        },
        run_cancel: grounded && f.shinespark_ready && f.frame.is_ge(20) && f.stick_run,
        jump_attack: grounded && 0 < f.jump_attack_frame,
        reset_log: grounded && f.jump_attack_frame == 1 && f.stopping && f.reserved_log > 0,
        to_squat_wait: f.motion_end,
    }
}

// ---------------------------------------------------------------------------
// Flashshift
// ---------------------------------------------------------------------------
/// The kinetics of a status that moves with its motion.
#[derive(Clone, Copy, Debug, PartialEq, Eq, Structural)]
pub enum Kinetics {
    /// Moving with the motion, kept to the ground.
    Ground,
    /// Moving with the motion in the air, without gravity.
    Air,
}

/// The kinetics for a situation: the air's off the ground.
pub open spec fn kinetics_for(situation: Situation) -> Kinetics {
    if situation == Situation::Ground {
        Kinetics::Ground
    } else {
        Kinetics::Air
    }
}

/// Flashshift's start: the chain timer is held (999 frames) until this one
/// ends, and the chain counts one more; the kinetics suit the situation.
pub fn main_special_s(vars: &mut SamusVars, situation: Situation) -> (r: Kinetics)
    ensures
        *final(vars) == (SamusVars {
            flashshift_chain_timer: 999,
            flashshift_chain_count: old(vars).flashshift_chain_count.wrapping_add(1),
            ..*old(vars)
        }),
        r == kinetics_for(situation),
{
    vars.flashshift_chain_timer = 999;
    vars.flashshift_chain_count = vars.flashshift_chain_count.wrapping_add(1);
    if situation == Situation::Ground {
        Kinetics::Ground
    } else {
        Kinetics::Air
    }
}

/// What flashshift's main loop reads.
#[derive(Clone, Copy, Debug, PartialEq, Eq, Structural)]
pub struct SpecialSFrame {
    pub situation: Situation,
    pub situation_changed: bool,
    pub touching_wall: bool,
    /// The first command category holds a turn dash or a jump.
    pub turn_dash_or_jump: bool,
    pub motion_end: bool,
}

/// What flashshift's main loop does.
#[derive(Clone, Copy, Debug, PartialEq, Eq, Structural)]
pub struct SpecialSPlan {
    /// On a change of situation, the kinetics for the new one.
    pub kinetics: Option<Kinetics>,
    /// In the air against a wall, a turn dash or jump input wall jumps.
    pub wall_jump: bool,
    /// At the motion's end: landing on the ground, else falling.
    pub end_status: Option<StatusKind>,
}

pub open spec fn spec_main_special_s_loop(f: SpecialSFrame) -> SpecialSPlan {
    SpecialSPlan {
        kinetics: if f.situation_changed {
            Some(kinetics_for(f.situation))
        } else {
            None
        },
        wall_jump: f.situation == Situation::Air && f.touching_wall && f.turn_dash_or_jump,
        end_status: if f.motion_end {
            Some(
                if f.situation == Situation::Ground {
                    StatusKind::Landing
                } else {
                    StatusKind::Fall
                },
            )
        } else {
            None
        },
    }
}

/// Flashshift's main loop.
pub fn main_special_s_loop(f: &SpecialSFrame) -> (r: SpecialSPlan)
    ensures
        r == spec_main_special_s_loop(*f),
{
    let kinetics = if f.situation_changed {
        if f.situation != Situation::Ground {
            Some(Kinetics::Air)
        } else {
            Some(Kinetics::Ground)
        }
    } else {
        None
    };
    let end_status = if f.motion_end {
        if f.situation == Situation::Ground {
            Some(StatusKind::Landing)
        } else {
            Some(StatusKind::Fall)
        }
    } else {
        None
    };
    SpecialSPlan {
        kinetics,
        wall_jump: f.situation == Situation::Air && f.touching_wall && f.turn_dash_or_jump,
        end_status,
    }
}

/// Flashshift's end: a cooldown of 180 frames, and 25 frames to chain the
/// next one.
pub fn end_special_s(vars: &mut SamusVars)
    ensures
        *final(vars) == (SamusVars {
            flashshift_cooldown: 180,
            flashshift_chain_timer: 25,
            ..*old(vars)
        }),
{
    vars.flashshift_cooldown = 180;
    vars.flashshift_chain_timer = 25;
}

// ---------------------------------------------------------------------------
// Charge shot
// ---------------------------------------------------------------------------
/// Leaving the charge shot's start keeps the charge (skipping the usual
/// exit) when the next status is a super missile.
pub fn exit_special_n(next_status: StatusKind) -> (r: bool)
    ensures
        r == (next_status == StatusKind::SamusSpecialS2G || next_status
            == StatusKind::SamusSpecialS2A),
{
    next_status == StatusKind::SamusSpecialS2G || next_status == StatusKind::SamusSpecialS2A
}

/// What the charge shot's shot does at its start.
#[derive(Clone, Copy, Debug, PartialEq, Eq, Structural)]
pub struct CshotPlan {
    /// The shot's life, for its initial and current life.
    pub life: i32,
    /// A swallowed shot away from the ground shows its bullet effect.
    pub bullet_effect: bool,
    /// The shot aims within 45 degrees of level: its owner is not in the
    /// air.
    pub clamp_aim: bool,
    /// Away from the ground, the trailing effects.
    pub trail_effects: bool,
}

/// A projectile of Samus's aims within 45 degrees of level unless she is in
/// the air.
pub open spec fn spec_clamps_aim(owner_situation: Situation) -> bool {
    owner_situation != Situation::Air
}

pub fn clamps_aim(owner_situation: Situation) -> (r: bool)
    ensures
        r == spec_clamps_aim(owner_situation),
{
    owner_situation != Situation::Air
}

/// The charge shot's shot at its start.
pub fn samus_cshot_shoot_init(
    life: i32,
    swallowed: bool,
    touching_ground: bool,
    owner_situation: Situation,
) -> (r: CshotPlan)
    ensures
        r == (CshotPlan {
            life,
            bullet_effect: swallowed && !touching_ground,
            clamp_aim: spec_clamps_aim(owner_situation),
            trail_effects: !touching_ground,
        }),
{
    CshotPlan {
        life,
        bullet_effect: swallowed && !touching_ground,
        clamp_aim: clamps_aim(owner_situation),
        trail_effects: !touching_ground,
    }
}

// ---------------------------------------------------------------------------
// Super missile
// ---------------------------------------------------------------------------
/// A super missile's next status.
#[derive(Clone, Copy, Debug, PartialEq, Eq, Structural)]
pub enum MissileStatus {
    /// It bursts.
    Burst,
    /// It flies straight.
    Straight,
}

/// A readying super missile bursts on touching the ground, and flies
/// straight once its frames run out.
pub fn samus_supermissile_ready_main_loop(touching_ground: bool, frames_left: i32) -> (r: Option<
    MissileStatus,
>)
    ensures
        r == (if touching_ground {
            Some(MissileStatus::Burst)
        } else if frames_left <= 0 {
            Some(MissileStatus::Straight)
        } else {
            None::<MissileStatus>
        }),
{
    if touching_ground {
        Some(MissileStatus::Burst)
    } else if frames_left <= 0 {
        Some(MissileStatus::Straight)
    } else {
        None
    }
}

/// A straight super missile bursts on touching the ground or once its
/// frames run out.
pub fn samus_supermissile_straight_main_loop(touching_ground: bool, frames_left: i32) -> (r:
    Option<MissileStatus>)
    ensures
        r == (if touching_ground || frames_left <= 0 {
            Some(MissileStatus::Burst)
        } else {
            None::<MissileStatus>
        }),
{
    if touching_ground || frames_left <= 0 {
        Some(MissileStatus::Burst)
    } else {
        None
    }
}

// ---------------------------------------------------------------------------
// Laws
// ---------------------------------------------------------------------------
/// Down tilt in the air only falls (and crouches at the motion's end).  On
/// the ground: the tilt combo goes on when its precede flag is up and the
/// status is changing or the combo is enabled with hits left; from frame 7
/// jumps cancel and special cancels into the morph ball; the motion is
/// slowed from frame 8 to 20 and sped up by the speed boost; with the boost,
/// from frame 20 forward on the stick runs; a reserved short-hop attack may
/// be taken while its frames last, and on its last frame, while stopping,
/// the reserved log is dropped; at the motion's end Samus crouches.
pub proof fn law_down_tilt(f: AttackLw3Frame)
    ensures
        ({
            let p = spec_main_attack_lw3_loop(f);
            let h = f.frame.half_steps();
            let g = f.situation != Situation::Air;
            &&& p.grounded == g
            &&& p.combo == (g && f.combo_precede && (f.status_changing || (f.combo_count
                < f.combo_max as u64 && f.combo_enabled)))
            &&& p.jump_cancels == (g && h >= 14)
            &&& p.morph_cancel == (g && h >= 14 && f.special_trigger)
            &&& p.pace.slowed == (16 <= h <= 40)
            &&& p.pace.boosted == f.shinespark_ready
            &&& p.run_cancel == (g && f.shinespark_ready && h >= 40 && f.stick_run)
            &&& p.jump_attack == (g && f.jump_attack_frame > 0)
            &&& p.reset_log == (g && f.jump_attack_frame == 1 && f.stopping && f.reserved_log > 0)
            &&& p.to_squat_wait == f.motion_end
        }),
{
}

/// Flashshift's loop: a change of situation switches the kinetics to the
/// ground's on the ground and to the air's elsewhere, and only then; in the
/// air against a wall a turn dash or jump input wall jumps; at the motion's
/// end it lands on the ground and falls elsewhere, and before it nothing
/// ends.
pub proof fn law_flashshift_loop(f: SpecialSFrame)
    ensures
        ({
            let p = spec_main_special_s_loop(f);
            &&& (p.kinetics == Some(Kinetics::Ground)) == (f.situation_changed && f.situation
                == Situation::Ground)
            &&& (p.kinetics == Some(Kinetics::Air)) == (f.situation_changed && f.situation
                != Situation::Ground)
            &&& (p.kinetics is None) == !f.situation_changed
            &&& p.wall_jump == (f.situation == Situation::Air && f.touching_wall
                && f.turn_dash_or_jump)
            &&& (p.end_status == Some(StatusKind::Landing)) == (f.motion_end && f.situation
                == Situation::Ground)
            &&& (p.end_status == Some(StatusKind::Fall)) == (f.motion_end && f.situation
                != Situation::Ground)
            &&& (p.end_status is None) == !f.motion_end
        }),
{
}

} // verus!
