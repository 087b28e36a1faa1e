use fighters::common::{FrameTime, Situation, StatusKind, MOTION_ATTACK_13, MOTION_ATTACK_AIR_B,
    MOTION_ATTACK_AIR_N, MOTION_ATTACK_LW3, MOTION_SPECIAL_AIR_F_START,
    MOTION_SUPER_SPECIAL2_BLOW};
use fighters::dolly::{burn_knuckle_land_cancel, cancel_supers_early, dtilt_repeat_increment,
    full_meter_training_taunt, magic_series, moveset, power_wave_dash_cancel_super_cancels,
    shield_stop_run_drop, special_super_cancels_triple_geyser, super_cancel_flag_off,
    super_cancels, super_special_meter_activation, Commands, DollyCtx, DollyFrame, DollyVars,
    Request, Term, WorkFlag};

fn no_commands() -> Commands {
    Commands {
        dash: false,
        attack_s3: false,
        attack_hi3: false,
        attack_lw3: false,
        attack_s4: false,
        attack_hi4: false,
        attack_lw4: false,
        special_n: false,
        special_s: false,
        special_hi: false,
        special_lw: false,
        special_n2_command: false,
        special_n_command: false,
        special_s_command: false,
        special_hi2_command: false,
        special_hi_command: false,
        jump: false,
    }
}

fn frame(status: StatusKind) -> DollyFrame {
    DollyFrame {
        status_kind: status,
        prev_status_kind: StatusKind::Other,
        situation_kind: Situation::Ground,
        prev_situation_kind: Situation::Ground,
        motion_kind: 0,
        frame: FrameTime::at(1),
        commands: no_commands(),
        super_special_command: false,
        super_special2_command: false,
        attack_hi_command: false,
        attack_lw_command: false,
        stick_forward: false,
        stick_backward: false,
        hit: false,
        shield_hit: false,
        meter_level: 0,
        training_mode: false,
        guard_held: false,
        guard_pressed: false,
        guard_trigger: false,
        catch_released: false,
        passable_ground: false,
        flick_down: false,
    }
}

fn vars() -> DollyVars {
    DollyVars {
        repeat_incremented: false,
        air_special_used: false,
        super_cancel: false,
        magic_series_cancel: false,
        magic_cancel_additional: false,
    }
}

fn to(status: StatusKind, clear_buffer: bool) -> Request {
    Request::ChangeStatus { status, clear_buffer }
}

fn final_requests() -> Vec<Request> {
    vec![
        Request::WorkFlagOn(WorkFlag::Final),
        Request::WorkFlagOn(WorkFlag::IsDiscretionFinalUsed),
        to(StatusKind::Final, true),
    ]
}

#[test]
fn power_wave_cancels_into_super_after_frame_21() {
    let mut f = frame(StatusKind::SpecialN);
    f.super_special_command = true;
    f.frame = FrameTime { whole: 21, fractional: true };
    let mut ctx = DollyCtx::new(vars(), true);
    power_wave_dash_cancel_super_cancels(&mut ctx, &f);
    assert_eq!(
        ctx.requests,
        vec![
            Request::EnableTerm(Term::ContSuperSpecial),
            Request::EnableTerm(Term::ContSuperSpecial2),
            to(StatusKind::DollySuperSpecial, false),
        ]
    );
    let mut early = DollyCtx::new(vars(), true);
    f.frame = FrameTime::at(21);
    power_wave_dash_cancel_super_cancels(&mut early, &f);
    assert!(early.requests.is_empty());
    let mut disabled = DollyCtx::new(vars(), false);
    f.frame = FrameTime::at(30);
    power_wave_dash_cancel_super_cancels(&mut disabled, &f);
    assert!(disabled.requests.is_empty());
}

#[test]
fn power_wave_dash_cancel_waits_longer_after_forward_tilt() {
    let mut f = frame(StatusKind::SpecialN);
    f.commands.dash = true;
    f.frame = FrameTime::at(34);
    let mut ctx = DollyCtx::new(vars(), false);
    power_wave_dash_cancel_super_cancels(&mut ctx, &f);
    assert_eq!(ctx.requests, vec![to(StatusKind::Dash, false)]);
    f.prev_status_kind = StatusKind::AttackS3;
    let mut after_tilt = DollyCtx::new(vars(), false);
    power_wave_dash_cancel_super_cancels(&mut after_tilt, &f);
    assert!(after_tilt.requests.is_empty());
    f.frame = FrameTime { whole: 36, fractional: true };
    let mut later = DollyCtx::new(vars(), false);
    power_wave_dash_cancel_super_cancels(&mut later, &f);
    assert_eq!(later.requests, vec![to(StatusKind::Dash, false)]);
    f.situation_kind = Situation::Air;
    let mut air = DollyCtx::new(vars(), false);
    power_wave_dash_cancel_super_cancels(&mut air, &f);
    assert!(air.requests.is_empty());
}

#[test]
fn power_wave_triple_geyser_needs_full_meter() {
    let mut f = frame(StatusKind::SpecialN);
    f.commands.special_n2_command = true;
    f.meter_level = 9;
    let mut ctx = DollyCtx::new(vars(), false);
    power_wave_dash_cancel_super_cancels(&mut ctx, &f);
    assert!(ctx.requests.is_empty());
    f.meter_level = 10;
    let mut full = DollyCtx::new(vars(), false);
    power_wave_dash_cancel_super_cancels(&mut full, &f);
    assert_eq!(full.requests, final_requests());
}

#[test]
fn specials_go_into_triple_geyser_with_full_meter() {
    let mut f = frame(StatusKind::DollySpecialBAttack);
    f.commands.special_n2_command = true;
    f.meter_level = 10;
    let mut ctx = DollyCtx::new(vars(), false);
    special_super_cancels_triple_geyser(&mut ctx, &f);
    let mut expected = vec![Request::EnableTerm(Term::Final)];
    expected.extend(final_requests());
    assert_eq!(ctx.requests, expected);
    let mut dash_attack = DollyCtx::new(vars(), false);
    special_super_cancels_triple_geyser(&mut dash_attack, &frame(StatusKind::AttackDash));
    assert!(dash_attack.requests.is_empty());
}

#[test]
fn power_geyser_blow_goes_into_triple_geyser_with_six_levels() {
    let mut f = frame(StatusKind::DollySuperSpecial2Blow);
    f.motion_kind = MOTION_SUPER_SPECIAL2_BLOW;
    f.meter_level = 6;
    let mut ctx = DollyCtx::new(vars(), false);
    special_super_cancels_triple_geyser(&mut ctx, &f);
    assert_eq!(ctx.requests, vec![Request::EnableTerm(Term::Final)]);
    f.commands.special_n2_command = true;
    let mut input = DollyCtx::new(vars(), false);
    special_super_cancels_triple_geyser(&mut input, &f);
    let mut expected = vec![Request::EnableTerm(Term::Final)];
    expected.extend(final_requests());
    assert_eq!(input.requests, expected);
    f.meter_level = 5;
    let mut short = DollyCtx::new(vars(), false);
    special_super_cancels_triple_geyser(&mut short, &f);
    assert!(short.requests.is_empty());
}

#[test]
fn dtilt_repeat_marked_once_on_hit() {
    let mut f = frame(StatusKind::AttackLw3);
    f.motion_kind = MOTION_ATTACK_LW3;
    let mut ctx = DollyCtx::new(vars(), false);
    dtilt_repeat_increment(&mut ctx, &f);
    assert!(!ctx.vars.repeat_incremented);
    f.hit = true;
    dtilt_repeat_increment(&mut ctx, &f);
    assert!(ctx.vars.repeat_incremented);
    assert!(ctx.requests.is_empty());
}

#[test]
fn burn_knuckle_lands_after_aerial_start() {
    let mut f = frame(StatusKind::Other);
    f.motion_kind = MOTION_SPECIAL_AIR_F_START;
    f.situation_kind = Situation::Air;
    let mut ctx = DollyCtx::new(vars(), false);
    burn_knuckle_land_cancel(&mut ctx, &f);
    assert!(ctx.vars.air_special_used);
    assert!(ctx.requests.is_empty());
    let mut landing = frame(StatusKind::DollySpecialFEnd);
    landing.prev_situation_kind = Situation::Air;
    burn_knuckle_land_cancel(&mut ctx, &landing);
    assert_eq!(ctx.requests, vec![to(StatusKind::Landing, false)]);
    let mut fresh = DollyCtx::new(vars(), false);
    burn_knuckle_land_cancel(&mut fresh, &landing);
    assert!(fresh.requests.is_empty());
}

#[test]
fn meter_of_four_enables_supers() {
    let mut f = frame(StatusKind::Other);
    f.meter_level = 4;
    let mut ctx = DollyCtx::new(vars(), false);
    super_special_meter_activation(&mut ctx, &f);
    assert!(ctx.super_special_enabled);
    assert_eq!(ctx.requests, vec![Request::WorkFlagOn(WorkFlag::EnableSuperSpecial)]);
    f.meter_level = 3;
    let mut low = DollyCtx::new(vars(), true);
    super_special_meter_activation(&mut low, &f);
    assert!(!low.super_special_enabled);
    assert_eq!(low.requests, vec![Request::WorkFlagOff(WorkFlag::EnableSuperSpecial)]);
}

#[test]
fn guard_ends_supers_early_on_the_ground() {
    let mut f = frame(StatusKind::DollySuperSpecial2);
    f.guard_pressed = true;
    f.frame = FrameTime::at(24);
    let mut ctx = DollyCtx::new(vars(), false);
    cancel_supers_early(&mut ctx, &f);
    assert_eq!(ctx.requests, vec![to(StatusKind::DollySpecialFEnd, false)]);
    f.frame = FrameTime::at(25);
    let mut late = DollyCtx::new(vars(), false);
    cancel_supers_early(&mut late, &f);
    assert!(late.requests.is_empty());
}

#[test]
fn buster_wolf_cancels_into_power_geyser() {
    let mut f = frame(StatusKind::DollySuperSpecial);
    f.meter_level = 2;
    f.super_special2_command = true;
    let mut ctx = DollyCtx::new(vars(), false);
    super_cancels(&mut ctx, &f);
    assert!(ctx.vars.super_cancel);
    assert_eq!(
        ctx.requests,
        vec![Request::EnableTerm(Term::ContSuperSpecial2), to(StatusKind::DollySuperSpecial2, false)]
    );
    f.meter_level = 1;
    let mut empty = DollyCtx::new(vars(), false);
    super_cancels(&mut empty, &f);
    assert!(!empty.vars.super_cancel);
    assert!(empty.requests.is_empty());
}

#[test]
fn power_geyser_blow_motion_cancels_into_buster_wolf() {
    let mut f = frame(StatusKind::Other);
    f.motion_kind = MOTION_SUPER_SPECIAL2_BLOW;
    f.meter_level = 2;
    f.super_special_command = true;
    let mut ctx = DollyCtx::new(vars(), false);
    super_cancels(&mut ctx, &f);
    assert!(ctx.vars.super_cancel);
    assert_eq!(
        ctx.requests,
        vec![Request::EnableTerm(Term::ContSuperSpecial), to(StatusKind::DollySuperSpecial, false)]
    );
}

#[test]
fn super_cancel_mark_off_outside_supers() {
    let mut v = vars();
    v.super_cancel = true;
    let mut ctx = DollyCtx::new(v, false);
    super_cancel_flag_off(&mut ctx, &frame(StatusKind::DollySuperSpecial2Blow));
    assert!(ctx.vars.super_cancel);
    super_cancel_flag_off(&mut ctx, &frame(StatusKind::Dash));
    assert!(!ctx.vars.super_cancel);
}

#[test]
fn shield_stop_clears_commands_and_run_drop_passes() {
    let mut f = frame(StatusKind::DollyDashBack);
    f.guard_trigger = true;
    f.catch_released = true;
    f.passable_ground = true;
    f.flick_down = true;
    let mut ctx = DollyCtx::new(vars(), false);
    shield_stop_run_drop(&mut ctx, &f);
    assert!(ctx.commands_cleared);
    assert_eq!(
        ctx.requests,
        vec![to(StatusKind::GuardOn, true), Request::ClearCommand, to(StatusKind::Pass, true)]
    );
    f.catch_released = false;
    let mut grab = DollyCtx::new(vars(), false);
    shield_stop_run_drop(&mut grab, &f);
    assert!(grab.requests.is_empty());
}

#[test]
fn training_taunt_fills_meter() {
    let mut f = frame(StatusKind::Appeal);
    f.guard_held = true;
    let mut ctx = DollyCtx::new(vars(), false);
    full_meter_training_taunt(&mut ctx, &f);
    assert!(ctx.requests.is_empty());
    f.training_mode = true;
    full_meter_training_taunt(&mut ctx, &f);
    assert_eq!(ctx.requests, vec![Request::AddFullMeter]);
}

#[test]
fn jab_hit_cancels_into_tilt_as_magic_series() {
    let mut f = frame(StatusKind::Attack);
    f.hit = true;
    f.commands.attack_hi3 = true;
    let mut ctx = DollyCtx::new(vars(), false);
    magic_series(&mut ctx, &f);
    assert!(ctx.vars.magic_series_cancel);
    assert_eq!(ctx.requests, vec![to(StatusKind::AttackHi3, false)]);
    f.motion_kind = MOTION_ATTACK_13;
    let mut third = DollyCtx::new(vars(), false);
    magic_series(&mut third, &f);
    assert!(third.requests.is_empty());
    f.commands.attack_s4 = true;
    let mut smash = DollyCtx::new(vars(), false);
    magic_series(&mut smash, &f);
    assert_eq!(smash.requests, vec![to(StatusKind::AttackS4Start, true)]);
}

#[test]
fn power_charge_clears_the_commands_that_follow() {
    let mut f = frame(StatusKind::AttackHi3);
    f.hit = true;
    f.frame = FrameTime::at(14);
    f.commands.special_n2_command = true;
    f.commands.jump = true;
    f.commands.dash = true;
    let mut ctx = DollyCtx::new(vars(), false);
    magic_series(&mut ctx, &f);
    assert_eq!(ctx.requests, vec![Request::ClearCommand, to(StatusKind::AttackDash, false)]);
    f.commands.special_n2_command = false;
    let mut jump = DollyCtx::new(vars(), false);
    magic_series(&mut jump, &f);
    assert_eq!(jump.requests, vec![to(StatusKind::JumpSquat, true), to(StatusKind::Dash, false)]);
}

#[test]
fn forward_tilt_dash_cancel_blocked_by_additional_mark() {
    let mut f = frame(StatusKind::AttackS3);
    f.hit = true;
    f.frame = FrameTime::at(14);
    f.commands.dash = true;
    let mut ctx = DollyCtx::new(vars(), false);
    magic_series(&mut ctx, &f);
    assert_eq!(ctx.requests, vec![to(StatusKind::Dash, false)]);
    let mut v = vars();
    v.magic_cancel_additional = true;
    let mut marked = DollyCtx::new(v, false);
    magic_series(&mut marked, &f);
    assert!(marked.requests.is_empty());
}

#[test]
fn dash_attack_on_shield_goes_into_supers() {
    let mut f = frame(StatusKind::AttackDash);
    f.shield_hit = true;
    f.super_special2_command = true;
    let mut ctx = DollyCtx::new(vars(), true);
    magic_series(&mut ctx, &f);
    assert_eq!(
        ctx.requests,
        vec![
            Request::EnableTerm(Term::ContSuperSpecial),
            Request::EnableTerm(Term::ContSuperSpecial2),
            to(StatusKind::DollySuperSpecial2, false),
        ]
    );
}

#[test]
fn smash_attack_cancels_into_specials() {
    let mut f = frame(StatusKind::AttackLw4);
    f.hit = true;
    f.commands.special_s = true;
    f.stick_backward = true;
    f.commands.special_hi_command = true;
    let mut ctx = DollyCtx::new(vars(), false);
    magic_series(&mut ctx, &f);
    assert_eq!(
        ctx.requests,
        vec![
            Request::EnableTerm(Term::ContSpecialSCommand),
            Request::EnableTerm(Term::ContSpecialHiCommand),
            Request::EnableTerm(Term::ContSpecialLwCommand),
            to(StatusKind::DollySpecialB, false),
            to(StatusKind::DollySpecialLwCommand, false),
        ]
    );
}

#[test]
fn aerials_cancel_into_aerials() {
    let mut f = frame(StatusKind::AttackAir);
    f.situation_kind = Situation::Air;
    f.hit = true;
    f.motion_kind = MOTION_ATTACK_AIR_N;
    f.attack_hi_command = true;
    f.commands.attack_s4 = true;
    f.stick_forward = true;
    let mut ctx = DollyCtx::new(vars(), false);
    magic_series(&mut ctx, &f);
    assert_eq!(ctx.requests, vec![to(StatusKind::AttackAir, false), to(StatusKind::AttackAir, false)]);
    f.motion_kind = MOTION_ATTACK_AIR_B;
    let mut bair = DollyCtx::new(vars(), false);
    magic_series(&mut bair, &f);
    assert!(bair.requests.is_empty());
}

#[test]
fn special_to_special_cancels_cost_a_level() {
    let mut f = frame(StatusKind::DollySpecialFAttack);
    f.hit = true;
    f.commands.special_hi = true;
    let mut ctx = DollyCtx::new(vars(), false);
    magic_series(&mut ctx, &f);
    let terms = vec![
        Request::EnableTerm(Term::ContSpecialSCommand),
        Request::EnableTerm(Term::ContSpecialHiCommand),
        Request::EnableTerm(Term::ContSpecialLwCommand),
    ];
    assert_eq!(ctx.requests, terms);
    f.meter_level = 1;
    let mut paid = DollyCtx::new(vars(), false);
    magic_series(&mut paid, &f);
    let mut expected = terms.clone();
    expected.push(to(StatusKind::SpecialHi, false));
    assert_eq!(paid.requests, expected);
}

#[test]
fn rising_tackle_cancels_into_power_wave() {
    let mut f = frame(StatusKind::DollySpecialHiJump);
    f.hit = true;
    f.meter_level = 1;
    f.commands.special_n = true;
    let mut ctx = DollyCtx::new(vars(), false);
    magic_series(&mut ctx, &f);
    assert_eq!(
        ctx.requests,
        vec![
            Request::EnableTerm(Term::ContSpecialSCommand),
            Request::EnableTerm(Term::ContSpecialLwCommand),
            to(StatusKind::SpecialN, false),
        ]
    );
}

#[test]
fn moveset_enables_supers_by_meter() {
    let mut f = frame(StatusKind::Other);
    f.meter_level = 7;
    let mut ctx = DollyCtx::new(vars(), false);
    moveset(&mut ctx, &f);
    assert!(ctx.super_special_enabled);
    f.meter_level = 0;
    let mut low = DollyCtx::new(vars(), true);
    moveset(&mut low, &f);
    assert!(!low.super_special_enabled);
}

#[test]
fn moveset_final_needs_six_levels() {
    let mut f = frame(StatusKind::DollySuperSpecial2Blow);
    f.motion_kind = MOTION_SUPER_SPECIAL2_BLOW;
    f.commands.special_n2_command = true;
    f.meter_level = 5;
    let mut ctx = DollyCtx::new(vars(), false);
    moveset(&mut ctx, &f);
    assert!(!ctx.requests.contains(&to(StatusKind::Final, true)));
    f.meter_level = 6;
    let mut enough = DollyCtx::new(vars(), false);
    moveset(&mut enough, &f);
    assert!(enough.requests.contains(&to(StatusKind::Final, true)));
}

#[test]
fn moveset_keeps_earlier_requests_and_marks() {
    let mut v = vars();
    v.magic_series_cancel = true;
    v.super_cancel = true;
    let mut ctx = DollyCtx::new(v, false);
    ctx.requests.push(Request::AddFullMeter);
    let mut f = frame(StatusKind::Attack);
    f.hit = true;
    f.meter_level = 4;
    moveset(&mut ctx, &f);
    assert_eq!(ctx.requests[0], Request::AddFullMeter);
    assert!(ctx.vars.magic_series_cancel);
    assert!(!ctx.vars.super_cancel);
}

#[test]
fn no_contact_no_magic_series() {
    let mut f = frame(StatusKind::AttackS4);
    f.commands.special_n = true;
    f.commands.special_n2_command = true;
    let mut ctx = DollyCtx::new(vars(), true);
    magic_series(&mut ctx, &f);
    assert!(ctx.requests.is_empty());
    assert!(!ctx.commands_cleared);
}

#[test]
fn cleared_buffer_stays_cleared() {
    let mut ctx = DollyCtx::new(vars(), false);
    ctx.commands_cleared = true;
    let mut f = frame(StatusKind::AttackS4);
    f.hit = true;
    f.commands.special_n = true;
    moveset(&mut ctx, &f);
    assert!(ctx.commands_cleared);
    assert!(!ctx.requests.contains(&to(StatusKind::SpecialN, false)));
}
