use fighters::common::{FrameTime, Situation, StatusKind};
use fighters::samus::SamusVars;
use fighters::samus_status::{clamps_aim, end_special_s, exit_special_n, main_attack_lw3_loop,
    main_special_s, main_special_s_loop, samus_cshot_shoot_init,
    samus_supermissile_ready_main_loop, samus_supermissile_straight_main_loop, AttackLw3Frame,
    Kinetics, MissileStatus, SpecialSFrame};

fn vars() -> SamusVars {
    SamusVars {
        flashshift_cooldown: 0,
        flashshift_chain_timer: 0,
        flashshift_chain_count: 0,
        flashshift_used: false,
        shinespark_ready: false,
        shinespark_used: false,
        shinespark_timer: 0,
        speedline_handle: -1,
        jet_status: -1,
        stored_handle: -1,
        bomb_counter: 0,
    }
}

fn dtilt() -> AttackLw3Frame {
    AttackLw3Frame {
        situation: Situation::Ground,
        frame: FrameTime::at(1),
        combo_precede: false,
        status_changing: false,
        combo_count: 0,
        combo_max: 1,
        combo_enabled: false,
        special_trigger: false,
        shinespark_ready: false,
        stick_run: false,
        jump_attack_frame: 0,
        stopping: false,
        reserved_log: 0,
        motion_end: false,
    }
}

#[test]
fn down_tilt_slows_and_opens_cancels() {
    let mut f = dtilt();
    f.frame = FrameTime::at(8);
    f.special_trigger = true;
    let plan = main_attack_lw3_loop(&f);
    assert!(plan.grounded);
    assert!(plan.jump_cancels);
    assert!(plan.morph_cancel);
    assert!(plan.pace.slowed);
    assert!(!plan.pace.boosted);
    f.frame = FrameTime { whole: 20, fractional: true };
    assert!(!main_attack_lw3_loop(&f).pace.slowed);
    f.frame = FrameTime::at(6);
    assert!(!main_attack_lw3_loop(&f).morph_cancel);
}

#[test]
fn down_tilt_runs_with_boost() {
    let mut f = dtilt();
    f.frame = FrameTime::at(20);
    f.shinespark_ready = true;
    f.stick_run = true;
    let plan = main_attack_lw3_loop(&f);
    assert!(plan.run_cancel);
    assert!(plan.pace.boosted);
    f.frame = FrameTime { whole: 19, fractional: true };
    assert!(!main_attack_lw3_loop(&f).run_cancel);
}

#[test]
fn down_tilt_combo_and_air() {
    let mut f = dtilt();
    f.combo_precede = true;
    f.combo_enabled = true;
    f.combo_count = 0;
    f.combo_max = 1;
    assert!(main_attack_lw3_loop(&f).combo);
    f.combo_count = 1;
    assert!(!main_attack_lw3_loop(&f).combo);
    f.combo_max = -1;
    assert!(main_attack_lw3_loop(&f).combo);
    f.situation = Situation::Air;
    f.motion_end = true;
    let plan = main_attack_lw3_loop(&f);
    assert!(!plan.grounded);
    assert!(!plan.combo);
    assert!(plan.to_squat_wait);
}

#[test]
fn down_tilt_jump_attack_log() {
    let mut f = dtilt();
    f.jump_attack_frame = 1;
    f.stopping = true;
    f.reserved_log = 5;
    let plan = main_attack_lw3_loop(&f);
    assert!(plan.jump_attack);
    assert!(plan.reset_log);
    f.jump_attack_frame = 2;
    assert!(!main_attack_lw3_loop(&f).reset_log);
}

#[test]
fn flashshift_start_holds_chain() {
    let mut v = vars();
    v.flashshift_chain_count = 1;
    assert_eq!(main_special_s(&mut v, Situation::Air), Kinetics::Air);
    assert_eq!(v.flashshift_chain_timer, 999);
    assert_eq!(v.flashshift_chain_count, 2);
    assert_eq!(main_special_s(&mut v, Situation::Ground), Kinetics::Ground);
    assert_eq!(v.flashshift_chain_count, 3);
}

#[test]
fn flashshift_end_sets_cooldown() {
    let mut v = vars();
    v.flashshift_chain_timer = 999;
    end_special_s(&mut v);
    assert_eq!(v.flashshift_cooldown, 180);
    assert_eq!(v.flashshift_chain_timer, 25);
}

#[test]
fn flashshift_loop_wall_jumps_and_ends() {
    let f = SpecialSFrame {
        situation: Situation::Air,
        situation_changed: true,
        touching_wall: true,
        turn_dash_or_jump: true,
        motion_end: true,
    };
    let plan = main_special_s_loop(&f);
    assert_eq!(plan.kinetics, Some(Kinetics::Air));
    assert!(plan.wall_jump);
    assert_eq!(plan.end_status, Some(StatusKind::Fall));
    let ground = SpecialSFrame {
        situation: Situation::Ground,
        situation_changed: false,
        touching_wall: true,
        turn_dash_or_jump: true,
        motion_end: true,
    };
    let plan = main_special_s_loop(&ground);
    assert_eq!(plan.kinetics, None);
    assert!(!plan.wall_jump);
    assert_eq!(plan.end_status, Some(StatusKind::Landing));
}

#[test]
fn charge_kept_into_super_missiles() {
    assert!(exit_special_n(StatusKind::SamusSpecialS2G));
    assert!(exit_special_n(StatusKind::SamusSpecialS2A));
    assert!(!exit_special_n(StatusKind::SamusSpecialS1G));
}

#[test]
fn charge_shot_start() {
    let plan = samus_cshot_shoot_init(60, true, false, Situation::Ground);
    assert_eq!(plan.life, 60);
    assert!(plan.bullet_effect);
    assert!(plan.clamp_aim);
    assert!(plan.trail_effects);
    let plan = samus_cshot_shoot_init(60, true, true, Situation::Air);
    assert!(!plan.bullet_effect);
    assert!(!plan.clamp_aim);
    assert!(!plan.trail_effects);
    assert!(clamps_aim(Situation::Other));
}

#[test]
fn super_missile_statuses() {
    assert_eq!(samus_supermissile_ready_main_loop(true, 5), Some(MissileStatus::Burst));
    assert_eq!(samus_supermissile_ready_main_loop(false, 0), Some(MissileStatus::Straight));
    assert_eq!(samus_supermissile_ready_main_loop(false, 3), None);
    assert_eq!(samus_supermissile_straight_main_loop(false, -1), Some(MissileStatus::Burst));
    assert_eq!(samus_supermissile_straight_main_loop(false, 1), None);
}
