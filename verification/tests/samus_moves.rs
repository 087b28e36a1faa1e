use fighters::common::{FrameTime, Situation, StatusKind, MOTION_ATTACK_DASH,
    MOTION_SPECIAL_AIR_LW, MOTION_SPECIAL_AIR_LW_SHINESPARK, MOTION_SPECIAL_LW};
use fighters::samus::{aim_gun, change_missiles, common_samus, flashshift, missile_land_cancel,
    morphball_crawl, moveset, nspecial_cancels, shinespark_air, shinespark_charge,
    shinespark_effect, shinespark_reset, shinespark_storage, spark_hit, sparks_active, AimMode,
    MotionRate, Request, SamusCtx, SamusFrame, SamusVars, SpeedBoost};

fn frame(status: StatusKind) -> SamusFrame {
    SamusFrame {
        status_kind: status,
        status: 0,
        situation_kind: Situation::Ground,
        prev_situation_kind: Situation::Ground,
        motion_kind: 0,
        frame: FrameTime::at(1),
        attack_held: false,
        attack_pressed: false,
        special_pressed: false,
        special_held: false,
        guard_pressed: false,
        special_s_command: false,
        jump_input: false,
        stick_forward: false,
        stick_x_nonzero: false,
        standing_still: false,
        fast: false,
        touching_wall: false,
        jumps_used: 0,
        jumps_max: 2,
        flip_effects: false,
        cancel_type_air_escape: false,
    }
}

fn vars() -> SamusVars {
    SamusVars {
        flashshift_cooldown: 0,
        flashshift_chain_timer: 0,
        flashshift_chain_count: 0,
        flashshift_used: false,
        shinespark_ready: false,
        shinespark_used: false,
        shinespark_timer: 0,
        speedline_handle: -1,
        jet_status: -1,
        stored_handle: -1,
        bomb_counter: 0,
    }
}

fn request(status: StatusKind, clear_buffer: bool) -> Request {
    Request::ChangeStatusRequest { status, clear_buffer }
}

#[test]
fn missiles_land_from_the_air() {
    let mut f = frame(StatusKind::SamusSpecialS1A);
    f.prev_situation_kind = Situation::Air;
    let mut ctx = SamusCtx::new(vars(), Situation::Ground);
    missile_land_cancel(&mut ctx, &f);
    assert_eq!(
        ctx.requests,
        vec![Request::ChangeStatusFromScript { status: StatusKind::Landing, clear_buffer: false }]
    );
    f.prev_situation_kind = Situation::Ground;
    let mut ground = SamusCtx::new(vars(), Situation::Ground);
    missile_land_cancel(&mut ground, &f);
    assert!(ground.requests.is_empty());
}

#[test]
fn held_attack_switches_to_super_missiles() {
    let mut f = frame(StatusKind::SpecialN);
    f.attack_held = true;
    f.frame = FrameTime::at(6);
    let mut ctx = SamusCtx::new(vars(), Situation::Air);
    change_missiles(&mut ctx, &f);
    assert_eq!(
        ctx.requests,
        vec![Request::ChangeStatusReq { status: StatusKind::SamusSpecialS2A, clear_buffer: false }]
    );
    let mut ground = SamusCtx::new(vars(), Situation::Ground);
    change_missiles(&mut ground, &f);
    assert_eq!(
        ground.requests,
        vec![Request::ChangeStatusReq { status: StatusKind::SamusSpecialS2G, clear_buffer: false }]
    );
    f.frame = FrameTime { whole: 6, fractional: true };
    let mut late = SamusCtx::new(vars(), Situation::Ground);
    change_missiles(&mut late, &f);
    assert!(late.requests.is_empty());
}

#[test]
fn aim_modes_follow_status_and_frame() {
    let mut f = frame(StatusKind::SamusSpecialS2G);
    f.frame = FrameTime::at(10);
    let plan = aim_gun(Situation::Ground, &f);
    assert_eq!(plan.mode, AimMode::SuperMissile);
    assert!(plan.flip);
    f.frame = FrameTime { whole: 27, fractional: true };
    assert_eq!(aim_gun(Situation::Ground, &f).mode, AimMode::Idle);
    let charging = frame(StatusKind::SamusSpecialNH);
    let plan = aim_gun(Situation::Air, &charging);
    assert_eq!(plan.mode, AimMode::ChargeShot);
    assert!(plan.both_arms);
    assert!(plan.airborne);
    let mut firing = frame(StatusKind::SamusSpecialNF);
    firing.frame = FrameTime::at(23);
    assert_eq!(aim_gun(Situation::Ground, &firing).mode, AimMode::Idle);
    let aerial = frame(StatusKind::SamusSpecialS2A);
    assert!(aim_gun(Situation::Air, &aerial).ease_with_shoulder);
}

#[test]
fn flashshift_cooldown_flashes_when_done() {
    let mut v = vars();
    v.flashshift_cooldown = 1;
    let mut f = frame(StatusKind::Other);
    f.flip_effects = true;
    let mut ctx = SamusCtx::new(v, Situation::Ground);
    flashshift(&mut ctx, &f);
    assert_eq!(ctx.vars.flashshift_cooldown, 0);
    assert_eq!(ctx.requests, vec![Request::FlashshiftReadyFlash { flipped: true }]);
    flashshift(&mut ctx, &f);
    assert_eq!(ctx.requests.len(), 1);
}

#[test]
fn flashshift_chain_ends_spent_in_the_air() {
    let mut v = vars();
    v.flashshift_chain_timer = 1;
    v.flashshift_chain_count = 2;
    let mut ctx = SamusCtx::new(v, Situation::Air);
    flashshift(&mut ctx, &frame(StatusKind::Fall));
    assert_eq!(ctx.vars.flashshift_chain_timer, 0);
    assert_eq!(ctx.vars.flashshift_chain_count, 0);
    assert!(ctx.vars.flashshift_used);
    let mut grounded = SamusCtx::new(v, Situation::Ground);
    flashshift(&mut grounded, &frame(StatusKind::Fall));
    assert!(!grounded.vars.flashshift_used);
}

#[test]
fn flashshift_cancels_attacks_mid_chain() {
    let mut v = vars();
    v.flashshift_chain_timer = 10;
    v.flashshift_chain_count = 2;
    let mut f = frame(StatusKind::AttackHi4);
    f.special_s_command = true;
    let mut ctx = SamusCtx::new(v, Situation::Ground);
    flashshift(&mut ctx, &f);
    assert_eq!(
        ctx.requests,
        vec![Request::ChangeStatus { status: StatusKind::SpecialS, clear_buffer: false }]
    );
    v.flashshift_chain_count = 3;
    let mut third = SamusCtx::new(v, Situation::Ground);
    flashshift(&mut third, &f);
    assert!(third.requests.is_empty());
}

#[test]
fn running_starts_the_speed_boost() {
    let mut f = frame(StatusKind::Run);
    f.frame = FrameTime { whole: 35, fractional: true };
    let mut ctx = SamusCtx::new(vars(), Situation::Ground);
    shinespark_charge(&mut ctx, &f);
    assert!(ctx.vars.shinespark_ready);
    assert_eq!(
        ctx.requests,
        vec![
            Request::PlaySpeedboostSound,
            Request::SetRunSpeedMul(SpeedBoost::Boosted),
            Request::SetJumpSpeedMaxMul(SpeedBoost::Boosted),
        ]
    );
    let mut tilt = SamusCtx::new(vars(), Situation::Ground);
    shinespark_charge(&mut tilt, &frame(StatusKind::AttackLw3));
    assert_eq!(tilt.requests, vec![Request::SetJumpSpeedMaxMul(SpeedBoost::Normal)]);
}

#[test]
fn speed_boost_lost_outside_keeping_statuses() {
    let mut v = vars();
    v.shinespark_ready = true;
    let mut ctx = SamusCtx::new(v, Situation::Ground);
    shinespark_reset(&mut ctx, &frame(StatusKind::Run));
    assert!(ctx.vars.shinespark_ready);
    let mut idle = SamusCtx::new(v, Situation::Ground);
    shinespark_reset(&mut idle, &frame(StatusKind::Other));
    assert!(!idle.vars.shinespark_ready);
    assert_eq!(idle.requests, vec![Request::CancelMainColor]);
    let mut jump = frame(StatusKind::JumpSquat);
    jump.stick_forward = true;
    let mut squat = SamusCtx::new(v, Situation::Ground);
    shinespark_reset(&mut squat, &jump);
    assert!(squat.vars.shinespark_ready);
}

#[test]
fn morph_ball_losing_boost_restarts_its_status() {
    let mut v = vars();
    v.shinespark_ready = true;
    let mut f = frame(StatusKind::SamusSpecialGroundLw);
    f.motion_kind = MOTION_SPECIAL_LW;
    f.frame = FrameTime::at(20);
    let mut ctx = SamusCtx::new(v, Situation::Ground);
    shinespark_reset(&mut ctx, &f);
    assert!(!ctx.vars.shinespark_ready);
    assert_eq!(
        ctx.requests,
        vec![
            request(StatusKind::SamusSpecialGroundLw, true),
            Request::InheritMotion(MOTION_SPECIAL_LW),
            Request::CancelMainColor,
        ]
    );
    f.fast = true;
    let mut fast = SamusCtx::new(v, Situation::Ground);
    shinespark_reset(&mut fast, &f);
    assert!(fast.vars.shinespark_ready);
}

#[test]
fn shinespark_use_ends_outside_dash_attack() {
    let mut v = vars();
    v.shinespark_used = true;
    let mut f = frame(StatusKind::AttackDash);
    f.motion_kind = MOTION_ATTACK_DASH;
    let mut ctx = SamusCtx::new(v, Situation::Ground);
    shinespark_reset(&mut ctx, &f);
    assert!(ctx.vars.shinespark_used);
    assert!(ctx.requests.is_empty());
    let mut other = SamusCtx::new(v, Situation::Ground);
    shinespark_reset(&mut other, &frame(StatusKind::AttackDash));
    assert!(!other.vars.shinespark_used);
}

#[test]
fn death_drops_the_stored_shinespark() {
    let mut v = vars();
    v.shinespark_timer = 120;
    let mut ctx = SamusCtx::new(v, Situation::Ground);
    shinespark_reset(&mut ctx, &frame(StatusKind::Dead));
    assert_eq!(ctx.vars.shinespark_timer, 0);
    assert_eq!(ctx.requests, vec![Request::CancelMainColor]);
}

#[test]
fn crouching_stores_a_shinespark() {
    let mut v = vars();
    v.shinespark_ready = true;
    let mut ctx = SamusCtx::new(v, Situation::Ground);
    moveset(&mut ctx, &frame(StatusKind::SquatWait));
    assert_eq!(ctx.vars.shinespark_timer, 300);
    assert!(!ctx.vars.shinespark_ready);
    assert!(ctx.requests.contains(&Request::PlayStoreSound));
}

#[test]
fn stored_shinespark_runs_down_and_glows() {
    let mut v = vars();
    v.shinespark_timer = 2;
    let mut ctx = SamusCtx::new(v, Situation::Ground);
    shinespark_storage(&mut ctx, &frame(StatusKind::Other));
    shinespark_storage(&mut ctx, &frame(StatusKind::Other));
    shinespark_storage(&mut ctx, &frame(StatusKind::Other));
    assert_eq!(ctx.vars.shinespark_timer, 0);
    assert_eq!(
        ctx.requests,
        vec![Request::StoredShinesparkColor, Request::StoredShinesparkColor]
    );
}

#[test]
fn aerial_shinespark_turns_into_dash_attack() {
    let mut v = vars();
    v.shinespark_timer = 5;
    let mut f = frame(StatusKind::AttackAir);
    f.special_held = true;
    f.frame = FrameTime::at(6);
    let mut ctx = SamusCtx::new(v, Situation::Air);
    shinespark_air(&mut ctx, &f);
    assert_eq!(ctx.requests, vec![Request::ChangeMotion(MOTION_ATTACK_DASH)]);
    f.frame = FrameTime::at(7);
    let mut late = SamusCtx::new(v, Situation::Air);
    shinespark_air(&mut late, &f);
    assert!(late.requests.is_empty());
}

#[test]
fn sparks_and_speed_lines() {
    let mut v = vars();
    v.shinespark_ready = true;
    v.shinespark_timer = 3;
    assert!(sparks_active(&v));
    assert!(spark_hit(0));
    assert!(!spark_hit(4));
    let mut f = frame(StatusKind::Run);
    f.status = 7;
    let mut ctx = SamusCtx::new(v, Situation::Ground);
    shinespark_effect(&mut ctx, &f, Some(1));
    assert_eq!(ctx.vars.jet_status, 7);
    assert_eq!(
        ctx.requests,
        vec![
            Request::ElectricSpark { spot: 1, morphball: false, purple: true },
            Request::TintLastEffectPurple,
            Request::SpawnSpeedLines { morphball: false },
            Request::SpawnJumpJets,
            Request::SpawnStoredAura,
        ]
    );
    assert!(!sparks_active(&vars()));
}

#[test]
fn effects_stop_without_boost_or_store() {
    let mut v = vars();
    v.speedline_handle = 11;
    v.jet_status = 4;
    v.stored_handle = 12;
    let mut ctx = SamusCtx::new(v, Situation::Ground);
    shinespark_effect(&mut ctx, &frame(StatusKind::Other), Some(0));
    assert_eq!(ctx.vars.speedline_handle, -1);
    assert_eq!(ctx.vars.jet_status, -1);
    assert_eq!(ctx.vars.stored_handle, -1);
    assert_eq!(
        ctx.requests,
        vec![Request::KillEffect(11), Request::KillJumpJets, Request::KillEffect(12)]
    );
}

#[test]
fn morph_ball_jets_stop() {
    let mut v = vars();
    v.shinespark_ready = true;
    v.speedline_handle = 3;
    v.jet_status = 9;
    let mut f = frame(StatusKind::SamusSpecialAirLw);
    f.motion_kind = MOTION_SPECIAL_AIR_LW;
    let mut ctx = SamusCtx::new(v, Situation::Air);
    shinespark_effect(&mut ctx, &f, None);
    assert_eq!(ctx.vars.jet_status, -1);
    assert_eq!(ctx.requests, vec![Request::KillJumpJets]);
}

#[test]
fn morph_ball_lays_at_most_eight_bombs() {
    let mut v = vars();
    v.bomb_counter = 7;
    let mut f = frame(StatusKind::SamusSpecialAirLw);
    f.motion_kind = MOTION_SPECIAL_AIR_LW;
    f.attack_pressed = true;
    f.frame = FrameTime::at(15);
    let mut ctx = SamusCtx::new(v, Situation::Air);
    morphball_crawl(&mut ctx, &f);
    assert_eq!(ctx.vars.bomb_counter, 8);
    morphball_crawl(&mut ctx, &f);
    assert_eq!(ctx.vars.bomb_counter, 8);
    let bombs = ctx.requests.iter().filter(|r| **r == Request::SpawnBomb).count();
    assert_eq!(bombs, 1);
}

#[test]
fn morph_ball_stops_rolling_when_still() {
    let mut f = frame(StatusKind::SamusSpecialGroundLw);
    f.motion_kind = MOTION_SPECIAL_LW;
    f.frame = FrameTime::at(25);
    f.standing_still = true;
    let mut ctx = SamusCtx::new(vars(), Situation::Ground);
    morphball_crawl(&mut ctx, &f);
    assert_eq!(ctx.requests, vec![Request::SetMotionRate(MotionRate::Stopped)]);
}

#[test]
fn morph_ball_exits_on_special_facing_the_stick() {
    let mut f = frame(StatusKind::SamusSpecialGroundLw);
    f.motion_kind = MOTION_SPECIAL_LW;
    f.frame = FrameTime::at(25);
    f.special_pressed = true;
    f.stick_x_nonzero = true;
    let mut ctx = SamusCtx::new(vars(), Situation::Ground);
    morphball_crawl(&mut ctx, &f);
    assert_eq!(
        ctx.requests,
        vec![
            Request::SetMotionRate(MotionRate::Normal),
            request(StatusKind::SamusSpecialGroundLw, true),
            Request::InheritMotionAt { motion: MOTION_SPECIAL_LW, frame: 40 },
            Request::FaceStick,
        ]
    );
}

#[test]
fn morph_ball_jump_then_ballspark_from_the_air() {
    let mut v = vars();
    v.shinespark_timer = 50;
    let mut f = frame(StatusKind::SamusSpecialGroundLw);
    f.motion_kind = MOTION_SPECIAL_LW;
    f.frame = FrameTime::at(15);
    f.jump_input = true;
    f.guard_pressed = true;
    let mut ctx = SamusCtx::new(v, Situation::Ground);
    morphball_crawl(&mut ctx, &f);
    assert_eq!(ctx.situation, Situation::Air);
    assert!(ctx.vars.shinespark_used);
    assert_eq!(ctx.vars.shinespark_timer, 0);
    assert_eq!(
        ctx.requests,
        vec![
            Request::SetMotionRate(MotionRate::Normal),
            Request::BecomeAirborne,
            Request::AddJumpSpeed,
            request(StatusKind::SamusSpecialAirLw, true),
            Request::PlayJumpSound,
            Request::JumpSmokeEffect,
            Request::InheritMotionAt { motion: MOTION_SPECIAL_AIR_LW_SHINESPARK, frame: 18 },
        ]
    );
}

#[test]
fn morph_ball_air_jump_needs_a_jump_left() {
    let mut f = frame(StatusKind::SamusSpecialAirLw);
    f.motion_kind = MOTION_SPECIAL_AIR_LW;
    f.frame = FrameTime::at(15);
    f.jump_input = true;
    f.jumps_used = 2;
    let mut ctx = SamusCtx::new(vars(), Situation::Air);
    morphball_crawl(&mut ctx, &f);
    assert_eq!(ctx.requests, vec![Request::SetMotionRate(MotionRate::Normal)]);
    f.jumps_used = 1;
    let mut left = SamusCtx::new(vars(), Situation::Air);
    morphball_crawl(&mut left, &f);
    assert!(left.requests.contains(&Request::CountJump));
}

#[test]
fn bomb_jump_returns_to_the_ball() {
    let mut f = frame(StatusKind::SamusBombJumpA);
    f.motion_kind = MOTION_SPECIAL_AIR_LW;
    f.frame = FrameTime::at(12);
    let mut ctx = SamusCtx::new(vars(), Situation::Air);
    morphball_crawl(&mut ctx, &f);
    assert_eq!(
        ctx.requests,
        vec![
            Request::SetMotionRate(MotionRate::Normal),
            request(StatusKind::SamusSpecialAirLw, false),
            Request::InheritMotionAt { motion: MOTION_SPECIAL_LW, frame: 20 },
        ]
    );
}

#[test]
fn bomb_count_resets_on_the_ground() {
    let mut v = vars();
    v.bomb_counter = 5;
    let mut ctx = SamusCtx::new(v, Situation::Air);
    common_samus(&mut ctx, &frame(StatusKind::Fall));
    assert_eq!(ctx.vars.bomb_counter, 5);
    let mut ground = SamusCtx::new(v, Situation::Ground);
    common_samus(&mut ground, &frame(StatusKind::Fall));
    assert_eq!(ground.vars.bomb_counter, 0);
}

#[test]
fn air_dodge_charge_cancel_reset() {
    let mut f = frame(StatusKind::SamusSpecialNC);
    f.situation_kind = Situation::Air;
    f.cancel_type_air_escape = true;
    let mut ctx = SamusCtx::new(vars(), Situation::Air);
    nspecial_cancels(&mut ctx, &f);
    assert_eq!(ctx.requests, vec![Request::ResetCancelType]);
    f.situation_kind = Situation::Ground;
    let mut ground = SamusCtx::new(vars(), Situation::Ground);
    nspecial_cancels(&mut ground, &f);
    assert!(ground.requests.is_empty());
}

#[test]
fn moveset_keeps_timers_valid() {
    let mut v = vars();
    v.flashshift_cooldown = 1;
    v.flashshift_chain_timer = 1;
    v.shinespark_timer = 1;
    let mut ctx = SamusCtx::new(v, Situation::Air);
    for _ in 0..5 {
        moveset(&mut ctx, &frame(StatusKind::Fall));
    }
    assert_eq!(ctx.vars.flashshift_cooldown, 0);
    assert_eq!(ctx.vars.flashshift_chain_timer, 0);
    assert_eq!(ctx.vars.shinespark_timer, 0);
}

#[test]
fn moveset_aims_after_switching_missiles() {
    let mut f = frame(StatusKind::SpecialN);
    f.attack_held = true;
    let mut ctx = SamusCtx::new(vars(), Situation::Ground);
    moveset(&mut ctx, &f);
    assert_eq!(
        ctx.requests[0],
        Request::ChangeStatusReq { status: StatusKind::SamusSpecialS2G, clear_buffer: false }
    );
    match ctx.requests[1] {
        Request::AimGun(plan) => assert_eq!(plan.mode, AimMode::ChargeShot),
        _ => panic!("the aim comes second"),
    }
}

#[test]
fn samus_frame_keeps_earlier_requests() {
    let mut ctx = SamusCtx::new(vars(), Situation::Ground);
    ctx.requests.push(Request::PlayJumpSound);
    moveset(&mut ctx, &frame(StatusKind::Run));
    shinespark_effect(&mut ctx, &frame(StatusKind::Run), None);
    common_samus(&mut ctx, &frame(StatusKind::Run));
    assert_eq!(ctx.requests[0], Request::PlayJumpSound);
    assert!(ctx.requests.len() > 1);
}
