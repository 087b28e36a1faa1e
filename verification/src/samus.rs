//! Samus's per-frame move logic: missiles, aiming, flashshift, the speed
//! boost and shinespark, and the morph ball.
//!
//! Each function reads one `SamusFrame` (what the game reports of the
//! fighter this frame) and works on a `SamusCtx`: the requests it makes of
//! the game, appended in the order they are made; the fighter's variables;
//! and the fighter's situation as it stands (a request to become airborne
//! changes it at once).
use vstd::prelude::*;
use crate::common::{FrameTime, Situation, StatusKind, MOTION_ATTACK_DASH, MOTION_SPECIAL_LW,
    MOTION_SPECIAL_AIR_LW, MOTION_SPECIAL_AIR_LW_SHINESPARK};

verus! {

/// What the game reports of the fighter this frame.
#[derive(Clone, Copy, Debug, PartialEq, Eq, Structural)]
pub struct SamusFrame {
    pub status_kind: StatusKind,
    /// The status as the game numbers it.
    pub status: i32,
    pub situation_kind: Situation,
    pub prev_situation_kind: Situation,
    pub motion_kind: u64,
    pub frame: FrameTime,
    /// An attack button is held.
    pub attack_held: bool,
    /// An attack button was pressed this frame.
    pub attack_pressed: bool,
    /// A special button was pressed this frame.
    pub special_pressed: bool,
    /// The special button (or its raw input) is held.
    pub special_held: bool,
    /// The guard button was pressed this frame.
    pub guard_pressed: bool,
    /// The first command category holds a side special input.
    pub special_s_command: bool,
    /// A jump input.
    pub jump_input: bool,
    pub stick_forward: bool,
    /// The stick is off centre horizontally.
    pub stick_x_nonzero: bool,
    /// The fighter's horizontal speed is zero.
    pub standing_still: bool,
    /// The fighter's horizontal speed exceeds four fifths of the speed
    /// boost's top speed.
    pub fast: bool,
    /// The fighter touches a wall on either side.
    pub touching_wall: bool,
    pub jumps_used: i32,
    pub jumps_max: i32,
    /// The fighter's motion parameters ask for flipped effects.
    pub flip_effects: bool,
    /// The charge shot's cancel type is an air dodge in the air.
    pub cancel_type_air_escape: bool,
}

/// Samus's own variables that this logic reads or writes.  Timers count
/// frames; a handle or a status of -1 stands for none.
#[derive(Clone, Copy, Debug, PartialEq, Eq, Structural)]
pub struct SamusVars {
    pub flashshift_cooldown: i32,
    pub flashshift_chain_timer: i32,
    pub flashshift_chain_count: i32,
    pub flashshift_used: bool,
    pub shinespark_ready: bool,
    pub shinespark_used: bool,
    pub shinespark_timer: i32,
    /// The speed lines effect.
    pub speedline_handle: i32,
    /// The status that the jump jets were started in.
    pub jet_status: i32,
    /// The stored shinespark's aura effect.
    pub stored_handle: i32,
    pub bomb_counter: i32,
}

/// Which aiming the arm cannon does this frame.
#[derive(Clone, Copy, Debug, PartialEq, Eq, Structural)]
pub enum AimMode {
    /// Super missile startup: the stick aims the missile.
    SuperMissile,
    /// Charge shot: the stick aims the shot.
    ChargeShot,
    /// Neither: the aim eases back to level.
    Idle,
}

/// How the arm cannon is aimed this frame; the angles themselves are worked
/// out by the game side.
#[derive(Clone, Copy, Debug, PartialEq, Eq, Structural)]
pub struct AimPlan {
    pub mode: AimMode,
    /// The grounded super missile turns the arm the other way.
    pub flip: bool,
    /// Charging: the left arm follows the right.
    pub both_arms: bool,
    /// In the air, steep angles turn the upper body too.
    pub airborne: bool,
    /// While easing back, the shoulder (rather than the waist) takes the
    /// upper body's turn: the aerial super missile.
    pub ease_with_shoulder: bool,
}

/// A speed multiplier: the speed boost's, or none.
#[derive(Clone, Copy, Debug, PartialEq, Eq, Structural)]
pub enum SpeedBoost {
    Boosted,
    Normal,
}

/// A motion's playback rate.
#[derive(Clone, Copy, Debug, PartialEq, Eq, Structural)]
pub enum MotionRate {
    Stopped,
    Normal,
}

/// A request to the game.
#[derive(Clone, Copy, Debug, PartialEq, Eq, Structural)]
pub enum Request {
    /// Request a change of status from script.
    ChangeStatusFromScript { status: StatusKind, clear_buffer: bool },
    /// Request a change of status through the fighter's own helper.
    ChangeStatusReq { status: StatusKind, clear_buffer: bool },
    /// Request a change of status.
    ChangeStatusRequest { status: StatusKind, clear_buffer: bool },
    /// Change status at once.
    ChangeStatus { status: StatusKind, clear_buffer: bool },
    /// Aim the arm cannon.
    AimGun(AimPlan),
    /// The flash that shows flashshift is ready again.
    FlashshiftReadyFlash { flipped: bool },
    /// The sound of the speed boost starting.
    PlaySpeedboostSound,
    /// Set the run speed multiplier.
    SetRunSpeedMul(SpeedBoost),
    /// Set the multiplier of the top jump speed.
    SetJumpSpeedMaxMul(SpeedBoost),
    /// Change motion, keeping the current frame.
    InheritMotion(u64),
    /// Change motion, starting at the given frame.
    InheritMotionAt { motion: u64, frame: i32 },
    /// Change motion from its start.
    ChangeMotion(u64),
    /// Drop the fighter's color blend.
    CancelMainColor,
    /// The purple glow of a stored shinespark.
    StoredShinesparkColor,
    /// The sound of storing a shinespark.
    PlayStoreSound,
    /// Electric sparks at one of three spots on the body, lowered for the
    /// morph ball, purple while a shinespark is stored.
    ElectricSpark { spot: i32, morphball: bool, purple: bool },
    /// Tint the last effect purple.
    TintLastEffectPurple,
    /// Start the speed lines; their handle goes into the speed line
    /// variable.
    SpawnSpeedLines { morphball: bool },
    /// Start the jump jets.
    SpawnJumpJets,
    /// Stop the jump jets.
    KillJumpJets,
    /// Stop the effect with the given handle.
    KillEffect(i32),
    /// Start the stored shinespark's aura; its handle goes into the stored
    /// effect variable.
    SpawnStoredAura,
    SetMotionRate(MotionRate),
    /// Lay a bomb.
    SpawnBomb,
    /// Face the way the stick points.
    FaceStick,
    /// Become airborne: air situation, air ground correction, falling
    /// kinetics.
    BecomeAirborne,
    /// The morph ball's jump speed.
    AddJumpSpeed,
    /// The morph ball's small hop before a ballspark.
    AddHopSpeed,
    /// Stop rising.
    StopRise,
    /// Count a jump as used.
    CountJump,
    PlayJumpSound,
    JumpSmokeEffect,
    AerialJumpEffect,
    /// Reset the charge shot's cancel type to none.
    ResetCancelType,
}

/// The frame's work as a value.
#[verifier::ext_equal]
pub struct SamusState {
    pub requests: Seq<Request>,
    pub vars: SamusVars,
    pub situation: Situation,
}

impl SamusState {
    pub open spec fn emit(self, r: Request) -> SamusState {
        SamusState { requests: self.requests.push(r), ..self }
    }

    pub open spec fn emit_if(self, c: bool, r: Request) -> SamusState {
        if c {
            self.emit(r)
        } else {
            self
        }
    }

    pub open spec fn with_vars(self, vars: SamusVars) -> SamusState {
        SamusState { vars, ..self }
    }

    /// Become airborne, at once.
    pub open spec fn become_airborne(self) -> SamusState {
        SamusState { situation: Situation::Air, ..self.emit(Request::BecomeAirborne) }
    }
}

/// The frame's work: the requests made so far and the state read back.
pub struct SamusCtx {
    pub requests: Vec<Request>,
    pub vars: SamusVars,
    pub situation: Situation,
}

impl View for SamusCtx {
    type V = SamusState;

    open spec fn view(&self) -> SamusState {
        SamusState { requests: self.requests@, vars: self.vars, situation: self.situation }
    }
}

impl SamusCtx {
    /// A frame's start: no requests yet, the variables as the game holds
    /// them, the situation as the game reports it.
    pub fn new(vars: SamusVars, situation: Situation) -> (r: SamusCtx)
        ensures
            r@ == (SamusState { requests: Seq::empty(), vars, situation }),
    {
        SamusCtx { requests: Vec::new(), vars, situation }
    }

    fn emit(&mut self, r: Request)
        ensures
            final(self)@ == old(self)@.emit(r),
    {
        self.requests.push(r);
    }

    fn emit_if(&mut self, c: bool, r: Request)
        ensures
            final(self)@ == old(self)@.emit_if(c, r),
    {
        if c {
            self.requests.push(r);
        }
    }

    fn become_airborne(&mut self)
        ensures
            final(self)@ == old(self)@.become_airborne(),
    {
        self.requests.push(Request::BecomeAirborne);
        self.situation = Situation::Air;
    }
}

// ---------------------------------------------------------------------------
// Status groups
// ---------------------------------------------------------------------------
/// The missiles' statuses, and side special's.
pub open spec fn is_missile_status(s: StatusKind) -> bool {
    match s {
        StatusKind::SpecialS | StatusKind::SamusSpecialS1G | StatusKind::SamusSpecialS1A
        | StatusKind::SamusSpecialS2G | StatusKind::SamusSpecialS2A => true,
        _ => false,
    }
}

fn missile_status(s: StatusKind) -> (r: bool)
    ensures
        r == is_missile_status(s),
{
    match s {
        StatusKind::SpecialS | StatusKind::SamusSpecialS1G | StatusKind::SamusSpecialS1A
        | StatusKind::SamusSpecialS2G | StatusKind::SamusSpecialS2A => true,
        _ => false,
    }
}

/// Statuses outside play: dead, reborn, winning, losing, entering.
pub open spec fn is_out_of_play(s: StatusKind) -> bool {
    match s {
        StatusKind::Dead | StatusKind::Rebirth | StatusKind::Win | StatusKind::Lose
        | StatusKind::Entry => true,
        _ => false,
    }
}

fn out_of_play(s: StatusKind) -> (r: bool)
    ensures
        r == is_out_of_play(s),
{
    match s {
        StatusKind::Dead | StatusKind::Rebirth | StatusKind::Win | StatusKind::Lose
        | StatusKind::Entry => true,
        _ => false,
    }
}

/// The attacks that flashshift can cancel mid-chain.
pub open spec fn is_flashshift_cancelable(s: StatusKind) -> bool {
    match s {
        StatusKind::Attack | StatusKind::AttackDash | StatusKind::AttackS3
        | StatusKind::AttackLw3 | StatusKind::AttackHi3 | StatusKind::AttackS4
        | StatusKind::AttackLw4 | StatusKind::AttackHi4 | StatusKind::AttackAir => true,
        _ => false,
    }
}

fn flashshift_cancelable(s: StatusKind) -> (r: bool)
    ensures
        r == is_flashshift_cancelable(s),
{
    match s {
        StatusKind::Attack | StatusKind::AttackDash | StatusKind::AttackS3
        | StatusKind::AttackLw3 | StatusKind::AttackHi3 | StatusKind::AttackS4
        | StatusKind::AttackLw4 | StatusKind::AttackHi4 | StatusKind::AttackAir => true,
        _ => false,
    }
}

/// The statuses that keep the speed boost.
pub open spec fn is_boost_keeping(s: StatusKind) -> bool {
    match s {
        StatusKind::AttackDash | StatusKind::Dash | StatusKind::Run | StatusKind::Squat
        | StatusKind::SquatWait | StatusKind::AttackLw3 | StatusKind::Landing
        | StatusKind::LandingLight | StatusKind::WallJump => true,
        _ => false,
    }
}

fn boost_keeping(s: StatusKind) -> (r: bool)
    ensures
        r == is_boost_keeping(s),
{
    match s {
        StatusKind::AttackDash | StatusKind::Dash | StatusKind::Run | StatusKind::Squat
        | StatusKind::SquatWait | StatusKind::AttackLw3 | StatusKind::Landing
        | StatusKind::LandingLight | StatusKind::WallJump => true,
        _ => false,
    }
}

/// The statuses that keep the speed boost in the air while moving fast or
/// touching a wall.
pub open spec fn is_airborne_boost_status(s: StatusKind) -> bool {
    match s {
        StatusKind::Jump | StatusKind::AttackAir | StatusKind::Fall
        | StatusKind::SamusSpecialGroundLw | StatusKind::SamusSpecialAirLw => true,
        _ => false,
    }
}

fn airborne_boost_status(s: StatusKind) -> (r: bool)
    ensures
        r == is_airborne_boost_status(s),
{
    match s {
        StatusKind::Jump | StatusKind::AttackAir | StatusKind::Fall
        | StatusKind::SamusSpecialGroundLw | StatusKind::SamusSpecialAirLw => true,
        _ => false,
    }
}

/// The morph ball's statuses.
pub open spec fn is_morph_status(s: StatusKind) -> bool {
    s == StatusKind::SamusSpecialGroundLw || s == StatusKind::SamusSpecialAirLw
}

/// The morph ball's motions.
pub open spec fn is_morph_motion(m: u64) -> bool {
    m == MOTION_SPECIAL_LW || m == MOTION_SPECIAL_AIR_LW
}

fn morph_motion(m: u64) -> (r: bool)
    ensures
        r == is_morph_motion(m),
{
    m == MOTION_SPECIAL_LW || m == MOTION_SPECIAL_AIR_LW
}

/// A status request from script.
pub open spec fn status_from_script(status: StatusKind, clear_buffer: bool) -> Request {
    Request::ChangeStatusFromScript { status, clear_buffer }
}

/// A status request.
pub open spec fn status_request(status: StatusKind, clear_buffer: bool) -> Request {
    Request::ChangeStatusRequest { status, clear_buffer }
}

// ---------------------------------------------------------------------------
// Missiles
// ---------------------------------------------------------------------------
/// A missile (or side special) that lands from the air lands.
pub open spec fn spec_missile_land_cancel(s: SamusState, f: SamusFrame) -> SamusState {
    s.emit_if(
        is_missile_status(f.status_kind) && f.situation_kind == Situation::Ground
            && f.prev_situation_kind == Situation::Air,
        status_from_script(StatusKind::Landing, false),
    )
}

pub fn missile_land_cancel(ctx: &mut SamusCtx, f: &SamusFrame)
    ensures
        final(ctx)@ == spec_missile_land_cancel(old(ctx)@, *f),
{
    let land = missile_status(f.status_kind) && f.situation_kind == Situation::Ground
        && f.prev_situation_kind == Situation::Air;
    ctx.emit_if(
        land,
        Request::ChangeStatusFromScript { status: StatusKind::Landing, clear_buffer: false },
    );
}

/// Holding attack by frame 6 of the charge shot's start switches to super
/// missiles, grounded or aerial as Samus is.
pub open spec fn spec_change_missiles(s: SamusState, f: SamusFrame) -> SamusState {
    if f.status_kind == StatusKind::SpecialN && f.frame.le(6) && f.attack_held {
        let to = if s.situation == Situation::Ground {
            StatusKind::SamusSpecialS2G
        } else {
            StatusKind::SamusSpecialS2A
        };
        s.emit(Request::ChangeStatusReq { status: to, clear_buffer: false })
    } else {
        s
    }
}

pub fn change_missiles(ctx: &mut SamusCtx, f: &SamusFrame)
    ensures
        final(ctx)@ == spec_change_missiles(old(ctx)@, *f),
{
    if f.status_kind == StatusKind::SpecialN && f.frame.is_le(6) && f.attack_held {
        let to = if ctx.situation == Situation::Ground {
            StatusKind::SamusSpecialS2G
        } else {
            StatusKind::SamusSpecialS2A
        };
        ctx.emit(Request::ChangeStatusReq { status: to, clear_buffer: false });
    }
}

// ---------------------------------------------------------------------------
// Aiming
// ---------------------------------------------------------------------------
/// The aim: super missiles aim from frame 10 to 27 of their startup, the
/// charge shot while charging, for 22 frames of firing and 12 of starting.
pub open spec fn spec_aim_gun(s: Situation, f: SamusFrame) -> AimPlan {
    let st = f.status_kind;
    let super_missile = (st == StatusKind::SamusSpecialS2G || st == StatusKind::SamusSpecialS2A)
        && f.frame.ge(10) && f.frame.le(27);
    let charge_shot = st == StatusKind::SamusSpecialNH || (st == StatusKind::SamusSpecialNF
        && f.frame.le(22)) || (st == StatusKind::SpecialN && f.frame.le(12));
    AimPlan {
        mode: if super_missile {
            AimMode::SuperMissile
        } else if charge_shot {
            AimMode::ChargeShot
        } else {
            AimMode::Idle
        },
        flip: st == StatusKind::SamusSpecialS2G,
        both_arms: st == StatusKind::SamusSpecialNH,
        airborne: s == Situation::Air,
        ease_with_shoulder: st == StatusKind::SamusSpecialS2A,
    }
}

pub fn aim_gun(situation: Situation, f: &SamusFrame) -> (r: AimPlan)
    ensures
        r == spec_aim_gun(situation, *f),
{
    let st = f.status_kind;
    let super_missile = (st == StatusKind::SamusSpecialS2G || st == StatusKind::SamusSpecialS2A)
        && f.frame.is_ge(10) && f.frame.is_le(27);
    let charge_shot = st == StatusKind::SamusSpecialNH || (st == StatusKind::SamusSpecialNF
        && f.frame.is_le(22)) || (st == StatusKind::SpecialN && f.frame.is_le(12));
    AimPlan {
        mode: if super_missile {
            AimMode::SuperMissile
        } else if charge_shot {
            AimMode::ChargeShot
        } else {
            AimMode::Idle
        },
        flip: st == StatusKind::SamusSpecialS2G,
        both_arms: st == StatusKind::SamusSpecialNH,
        airborne: situation == Situation::Air,
        ease_with_shoulder: st == StatusKind::SamusSpecialS2A,
    }
}

// ---------------------------------------------------------------------------
// Flashshift
// ---------------------------------------------------------------------------
/// Flashshift's timers run down a frame at a time: when the cooldown runs
/// out, a flash shows it ready; when the chain timer runs out, the chain
/// ends and flashshift is spent.  Outside play or off the air it is no
/// longer spent.  Mid-chain, before a third flashshift, a side special input
/// cancels any attack into flashshift.
pub open spec fn spec_flashshift(s: SamusState, f: SamusFrame) -> SamusState {
    let v0 = s.vars;
    let a = if v0.flashshift_cooldown > 0 {
        let t = s.with_vars(SamusVars { flashshift_cooldown: (v0.flashshift_cooldown - 1) as i32, ..v0 });
        t.emit_if(
            t.vars.flashshift_cooldown <= 0,
            Request::FlashshiftReadyFlash { flipped: f.flip_effects },
        )
    } else {
        s
    };
    let v1 = a.vars;
    let b = if v1.flashshift_chain_timer > 0 {
        let timer = v1.flashshift_chain_timer - 1;
        if timer <= 0 {
            a.with_vars(
                SamusVars {
                    flashshift_chain_timer: timer as i32,
                    flashshift_chain_count: 0,
                    flashshift_used: true,
                    ..v1
                },
            )
        } else {
            a.with_vars(SamusVars { flashshift_chain_timer: timer as i32, ..v1 })
        }
    } else {
        a
    };
    let c = if is_out_of_play(f.status_kind) || b.situation != Situation::Air {
        b.with_vars(SamusVars { flashshift_used: false, ..b.vars })
    } else {
        b
    };
    c.emit_if(
        c.vars.flashshift_chain_timer > 0 && c.vars.flashshift_chain_count < 3
            && f.special_s_command && is_flashshift_cancelable(f.status_kind),
        Request::ChangeStatus { status: StatusKind::SpecialS, clear_buffer: false },
    )
}

pub fn flashshift(ctx: &mut SamusCtx, f: &SamusFrame)
    ensures
        final(ctx)@ == spec_flashshift(old(ctx)@, *f),
{
    if ctx.vars.flashshift_cooldown > 0 {
        ctx.vars.flashshift_cooldown = ctx.vars.flashshift_cooldown - 1;
        let ready = ctx.vars.flashshift_cooldown <= 0;
        ctx.emit_if(ready, Request::FlashshiftReadyFlash { flipped: f.flip_effects });
    }
    if ctx.vars.flashshift_chain_timer > 0 {
        ctx.vars.flashshift_chain_timer = ctx.vars.flashshift_chain_timer - 1;
        if ctx.vars.flashshift_chain_timer <= 0 {
            ctx.vars.flashshift_chain_count = 0;
            ctx.vars.flashshift_used = true;
        }
    }
    if out_of_play(f.status_kind) || ctx.situation != Situation::Air {
        ctx.vars.flashshift_used = false;
    }
    let cancel = ctx.vars.flashshift_chain_timer > 0 && ctx.vars.flashshift_chain_count < 3
        && f.special_s_command && flashshift_cancelable(f.status_kind);
    ctx.emit_if(cancel, Request::ChangeStatus { status: StatusKind::SpecialS, clear_buffer: false });
}

// ---------------------------------------------------------------------------
// Speed boost and shinespark
// ---------------------------------------------------------------------------
/// Running past frame 35 starts the speed boost (with its sound, once);
/// while boosted, runs (outside down tilt) and jumps are faster, else they
/// are set back.
pub open spec fn spec_shinespark_charge(s: SamusState, f: SamusFrame) -> SamusState {
    let a = if f.status_kind == StatusKind::Run && f.frame.gt(35) && !s.vars.shinespark_ready {
        s.with_vars(SamusVars { shinespark_ready: true, ..s.vars }).emit(
            Request::PlaySpeedboostSound,
        )
    } else {
        s
    };
    let boost = if a.vars.shinespark_ready {
        SpeedBoost::Boosted
    } else {
        SpeedBoost::Normal
    };
    a.emit_if(f.status_kind != StatusKind::AttackLw3, Request::SetRunSpeedMul(boost)).emit(
        Request::SetJumpSpeedMaxMul(boost),
    )
}

pub fn shinespark_charge(ctx: &mut SamusCtx, f: &SamusFrame)
    ensures
        final(ctx)@ == spec_shinespark_charge(old(ctx)@, *f),
{
    if f.status_kind == StatusKind::Run && f.frame.is_gt(35) {
        if !ctx.vars.shinespark_ready {
            ctx.vars.shinespark_ready = true;
            ctx.emit(Request::PlaySpeedboostSound);
        }
    }
    let boost = if ctx.vars.shinespark_ready {
        SpeedBoost::Boosted
    } else {
        SpeedBoost::Normal
    };
    ctx.emit_if(f.status_kind != StatusKind::AttackLw3, Request::SetRunSpeedMul(boost));
    ctx.emit(Request::SetJumpSpeedMaxMul(boost));
}

/// The speed boost survives this frame: in a boost-keeping status; braking
/// from a run before frame 6; a jump squat toward the stick; in the air,
/// jumping, attacking, falling or morphed while fast or on a wall; on the
/// ground, morphed up to frame 11 or while fast.
pub open spec fn keeps_boost(s: SamusState, f: SamusFrame) -> bool {
    let st = f.status_kind;
    ||| is_boost_keeping(st)
    ||| st == StatusKind::RunBrake && f.frame.lt(6)
    ||| st == StatusKind::JumpSquat && f.stick_forward
    ||| is_airborne_boost_status(st) && s.situation == Situation::Air && (f.fast
        || f.touching_wall)
    ||| is_morph_status(st) && s.situation == Situation::Ground && (f.frame.le(11) || f.fast)
}

/// Outside a dash attack or a shinespark, the shinespark is not in use.  The
/// speed boost is lost unless kept (see `keeps_boost`); a morph ball that
/// loses it restarts its status, keeping its frame.  Outside play the stored
/// shinespark is dropped; with none stored or in use, so is the glow.
pub open spec fn spec_shinespark_reset(s: SamusState, f: SamusFrame) -> SamusState {
    let a = if !(f.motion_kind == MOTION_ATTACK_DASH || f.motion_kind
        == MOTION_SPECIAL_AIR_LW_SHINESPARK) {
        s.with_vars(SamusVars { shinespark_used: false, ..s.vars })
    } else {
        s
    };
    let b = if a.vars.shinespark_ready && !keeps_boost(a, f) {
        let t = a.with_vars(SamusVars { shinespark_ready: false, ..a.vars });
        if is_morph_motion(f.motion_kind) {
            if t.situation == Situation::Ground {
                t.emit(status_request(StatusKind::SamusSpecialGroundLw, true)).emit(
                    Request::InheritMotion(MOTION_SPECIAL_LW),
                )
            } else if t.situation == Situation::Air {
                t.emit(status_request(StatusKind::SamusSpecialAirLw, true)).emit(
                    Request::InheritMotion(MOTION_SPECIAL_AIR_LW),
                )
            } else {
                t
            }
        } else {
            t
        }
    } else {
        a
    };
    let c = if f.status_kind == StatusKind::Entry || f.status_kind == StatusKind::Dead
        || f.status_kind == StatusKind::Rebirth {
        b.with_vars(SamusVars { shinespark_timer: 0, ..b.vars })
    } else {
        b
    };
    c.emit_if(
        c.vars.shinespark_timer == 0 && !c.vars.shinespark_used,
        Request::CancelMainColor,
    )
}

fn boost_kept(ctx: &SamusCtx, f: &SamusFrame) -> (r: bool)
    ensures
        r == keeps_boost(ctx@, *f),
{
    let st = f.status_kind;
    boost_keeping(st) || (st == StatusKind::RunBrake && f.frame.is_lt(6)) || (st
        == StatusKind::JumpSquat && f.stick_forward) || (airborne_boost_status(st)
        && ctx.situation == Situation::Air && (f.fast || f.touching_wall)) || ((st
        == StatusKind::SamusSpecialGroundLw || st == StatusKind::SamusSpecialAirLw)
        && ctx.situation == Situation::Ground && (f.frame.is_le(11) || f.fast))
}

pub fn shinespark_reset(ctx: &mut SamusCtx, f: &SamusFrame)
    ensures
        final(ctx)@ == spec_shinespark_reset(old(ctx)@, *f),
{
    if !(f.motion_kind == MOTION_ATTACK_DASH || f.motion_kind == MOTION_SPECIAL_AIR_LW_SHINESPARK) {
        ctx.vars.shinespark_used = false;
    }
    if ctx.vars.shinespark_ready && !boost_kept(ctx, f) {
        ctx.vars.shinespark_ready = false;
        if morph_motion(f.motion_kind) {
            if ctx.situation == Situation::Ground {
                ctx.emit(
                    Request::ChangeStatusRequest {
                        status: StatusKind::SamusSpecialGroundLw,
                        clear_buffer: true,
                    },
                );
                ctx.emit(Request::InheritMotion(MOTION_SPECIAL_LW));
            } else if ctx.situation == Situation::Air {
                ctx.emit(
                    Request::ChangeStatusRequest {
                        status: StatusKind::SamusSpecialAirLw,
                        clear_buffer: true,
                    },
                );
                ctx.emit(Request::InheritMotion(MOTION_SPECIAL_AIR_LW));
            }
        }
    }
    if f.status_kind == StatusKind::Entry || f.status_kind == StatusKind::Dead || f.status_kind
        == StatusKind::Rebirth {
        ctx.vars.shinespark_timer = 0;
    }
    let cancel = ctx.vars.shinespark_timer == 0 && !ctx.vars.shinespark_used;
    ctx.emit_if(cancel, Request::CancelMainColor);
}

/// A stored shinespark runs down a frame at a time, glowing purple;
/// crouching with the speed boost stores one for 300 frames (five seconds),
/// spending the boost, with a sound.
pub open spec fn spec_shinespark_storage(s: SamusState, f: SamusFrame) -> SamusState {
    let a = if s.vars.shinespark_timer > 0 {
        s.with_vars(SamusVars { shinespark_timer: (s.vars.shinespark_timer - 1) as i32, ..s.vars }).emit(
            Request::StoredShinesparkColor,
        )
    } else {
        s
    };
    if f.status_kind == StatusKind::SquatWait && a.vars.shinespark_ready {
        a.with_vars(
            SamusVars { shinespark_timer: 300, shinespark_ready: false, ..a.vars },
        ).emit(Request::PlayStoreSound)
    } else {
        a
    }
}

pub fn shinespark_storage(ctx: &mut SamusCtx, f: &SamusFrame)
    ensures
        final(ctx)@ == spec_shinespark_storage(old(ctx)@, *f),
{
    if ctx.vars.shinespark_timer > 0 {
        ctx.vars.shinespark_timer = ctx.vars.shinespark_timer - 1;
        ctx.emit(Request::StoredShinesparkColor);
    }
    if f.status_kind == StatusKind::SquatWait && ctx.vars.shinespark_ready {
        ctx.vars.shinespark_timer = 300;
        ctx.vars.shinespark_ready = false;
        ctx.emit(Request::PlayStoreSound);
    }
}

/// With a shinespark stored, special in the first six frames of an aerial
/// turns it into the dash attack's motion.
pub open spec fn spec_shinespark_air(s: SamusState, f: SamusFrame) -> SamusState {
    s.emit_if(
        s.vars.shinespark_timer > 0 && f.special_held && f.status_kind == StatusKind::AttackAir
            && f.frame.le(6),
        Request::ChangeMotion(MOTION_ATTACK_DASH),
    )
}

pub fn shinespark_air(ctx: &mut SamusCtx, f: &SamusFrame)
    ensures
        final(ctx)@ == spec_shinespark_air(old(ctx)@, *f),
{
    let go = ctx.vars.shinespark_timer > 0 && f.special_held && f.status_kind
        == StatusKind::AttackAir && f.frame.is_le(6);
    ctx.emit_if(go, Request::ChangeMotion(MOTION_ATTACK_DASH));
}

/// Sparks fly (by chance) while boosted or with a shinespark stored.
pub open spec fn spec_sparks_active(v: SamusVars) -> bool {
    v.shinespark_ready || v.shinespark_timer > 0
}

/// Whether sparks may fly this frame: if so, the game rolls one in ten, and
/// on a zero rolls one in three for the spot.
pub fn sparks_active(v: &SamusVars) -> (r: bool)
    ensures
        r == spec_sparks_active(*v),
{
    v.shinespark_ready || v.shinespark_timer > 0
}

/// Whether the one-in-ten roll for sparks came up.
pub fn spark_hit(roll: i32) -> (r: bool)
    ensures
        r == (roll == 0),
{
    roll == 0
}

/// The speed boost's and the stored shinespark's effects.  `spot` is the
/// spot that the game rolled for a spark this frame, if it rolled one.
/// Sparks: at the rolled spot, purple while stored, then the last effect
/// tinted purple while stored.  Boosted: speed lines unless running, jump
/// jets once per status outside the morph ball, none in it.  Not boosted:
/// running speed lines and jets stop.  Stored: an aura unless running; none
/// stored: a running aura stops.
pub open spec fn spec_shinespark_effect(s: SamusState, f: SamusFrame, spot: Option<i32>) -> SamusState {
    let morph = is_morph_motion(f.motion_kind);
    let stored = s.vars.shinespark_timer > 0;
    let a = if spec_sparks_active(s.vars) && spot is Some {
        let k = spot.unwrap();
        s.emit_if(
            0 <= k < 3,
            Request::ElectricSpark { spot: k, morphball: morph, purple: stored },
        ).emit_if(stored, Request::TintLastEffectPurple)
    } else {
        s
    };
    let b = if a.vars.shinespark_ready {
        let l = a.emit_if(
            a.vars.speedline_handle == -1,
            Request::SpawnSpeedLines { morphball: morph },
        );
        let j = if f.status != l.vars.jet_status && !morph {
            l.emit(Request::SpawnJumpJets).with_vars(SamusVars { jet_status: f.status, ..l.vars })
        } else {
            l
        };
        if j.vars.jet_status != -1 && morph {
            j.emit(Request::KillJumpJets).with_vars(SamusVars { jet_status: -1i32, ..j.vars })
        } else {
            j
        }
    } else if a.vars.speedline_handle != -1 {
        a.emit(Request::KillEffect(a.vars.speedline_handle)).emit(Request::KillJumpJets).with_vars(
            SamusVars { speedline_handle: -1i32, jet_status: -1i32, ..a.vars },
        )
    } else {
        a
    };
    if b.vars.shinespark_timer > 0 && b.vars.stored_handle == -1 {
        b.emit(Request::SpawnStoredAura)
    } else if b.vars.shinespark_timer == 0 && b.vars.stored_handle != -1 {
        b.emit(Request::KillEffect(b.vars.stored_handle)).with_vars(
            SamusVars { stored_handle: -1i32, ..b.vars },
        )
    } else {
        b
    }
}

pub fn shinespark_effect(ctx: &mut SamusCtx, f: &SamusFrame, spot: Option<i32>)
    ensures
        final(ctx)@ == spec_shinespark_effect(old(ctx)@, *f, spot),
{
    let morph = morph_motion(f.motion_kind);
    let stored = ctx.vars.shinespark_timer > 0;
    if sparks_active(&ctx.vars) {
        if let Some(k) = spot {
            ctx.emit_if(
                0 <= k && k < 3,
                Request::ElectricSpark { spot: k, morphball: morph, purple: stored },
            );
            ctx.emit_if(stored, Request::TintLastEffectPurple);
        }
    }
    if ctx.vars.shinespark_ready {
        let lines = ctx.vars.speedline_handle == -1;
        ctx.emit_if(lines, Request::SpawnSpeedLines { morphball: morph });
        if f.status != ctx.vars.jet_status && !morph {
            ctx.emit(Request::SpawnJumpJets);
            ctx.vars.jet_status = f.status;
        }
        if ctx.vars.jet_status != -1 && morph {
            ctx.emit(Request::KillJumpJets);
            ctx.vars.jet_status = -1;
        }
    } else if ctx.vars.speedline_handle != -1 {
        let handle = ctx.vars.speedline_handle;
        ctx.emit(Request::KillEffect(handle));
        ctx.emit(Request::KillJumpJets);
        ctx.vars.speedline_handle = -1;
        ctx.vars.jet_status = -1;
    }
    if ctx.vars.shinespark_timer > 0 && ctx.vars.stored_handle == -1 {
        ctx.emit(Request::SpawnStoredAura);
    } else if ctx.vars.shinespark_timer == 0 && ctx.vars.stored_handle != -1 {
        let handle = ctx.vars.stored_handle;
        ctx.emit(Request::KillEffect(handle));
        ctx.vars.stored_handle = -1;
    }
}


// ---------------------------------------------------------------------------
// Morph ball
// ---------------------------------------------------------------------------
/// Leave the morph ball: restart its status (grounded or aerial) at frame
/// 40 of its motion, facing the stick.
pub open spec fn morph_exit(s: SamusState, f: SamusFrame) -> SamusState {
    let a = if s.situation == Situation::Ground {
        s.emit(status_request(StatusKind::SamusSpecialGroundLw, true)).emit(
            Request::InheritMotionAt { motion: MOTION_SPECIAL_LW, frame: 40 },
        )
    } else if s.situation == Situation::Air {
        s.emit(status_request(StatusKind::SamusSpecialAirLw, true)).emit(
            Request::InheritMotionAt { motion: MOTION_SPECIAL_AIR_LW, frame: 40 },
        )
    } else {
        s
    };
    a.emit_if(f.stick_x_nonzero, Request::FaceStick)
}

/// Stay in the ball: after a bomb jump from frame 12 on, back into the
/// ball's status; after it or from frame 38 to 40, back to frame 20 of the
/// rolling loop.
pub open spec fn morph_loop(s: SamusState, f: SamusFrame) -> SamusState {
    if f.frame.ge(12) && (f.status_kind == StatusKind::SamusBombJumpG || f.status_kind
        == StatusKind::SamusBombJumpA) {
        let a = if s.situation == Situation::Ground {
            s.emit(status_request(StatusKind::SamusSpecialGroundLw, false))
        } else if s.situation == Situation::Air {
            s.emit(status_request(StatusKind::SamusSpecialAirLw, false))
        } else {
            s
        };
        a.emit(Request::InheritMotionAt { motion: MOTION_SPECIAL_LW, frame: 20 })
    } else if f.frame.ge(38) && f.frame.lt(40) {
        s.emit(Request::InheritMotionAt { motion: MOTION_SPECIAL_LW, frame: 20 })
    } else {
        s
    }
}

/// Jump in the ball: from the ground, become airborne and jump into the
/// aerial ball; in the air with a jump left, stop rising and jump again.
pub open spec fn morph_jump(s: SamusState, f: SamusFrame) -> SamusState {
    if s.situation == Situation::Ground {
        s.become_airborne().emit(Request::AddJumpSpeed).emit(
            status_request(StatusKind::SamusSpecialAirLw, true),
        ).emit(Request::PlayJumpSound).emit(Request::JumpSmokeEffect)
    } else if s.situation == Situation::Air && f.jumps_used < f.jumps_max {
        s.emit(Request::StopRise).emit(Request::AddJumpSpeed).emit(Request::CountJump).emit(
            Request::PlayJumpSound,
        ).emit(Request::AerialJumpEffect)
    } else {
        s
    }
}

/// Ballspark: spend the stored shinespark; from the ground hop into the
/// air first; then the shinespark motion from frame 18.
pub open spec fn ballspark(s: SamusState) -> SamusState {
    let a = s.with_vars(SamusVars { shinespark_used: true, shinespark_timer: 0, ..s.vars });
    let spark = Request::InheritMotionAt { motion: MOTION_SPECIAL_AIR_LW_SHINESPARK, frame: 18 };
    if a.situation == Situation::Ground {
        a.become_airborne().emit(Request::AddHopSpeed).emit(
            status_request(StatusKind::SamusSpecialAirLw, true),
        ).emit(spark)
    } else if a.situation == Situation::Air {
        a.emit(spark)
    } else {
        a
    }
}

/// In the morph ball: it stops rolling while still from frame 20 to 40;
/// attack lays a bomb before frame 40 if fewer than eight are out; special
/// from frame 20 to 40 leaves the ball; it loops (see `morph_loop`); a jump
/// from frame 12 to 40 jumps; guard from frame 12 to 40 with a stored
/// shinespark ballsparks.
pub open spec fn morph_ball(s: SamusState, f: SamusFrame) -> SamusState {
    let rolling = f.frame.ge(20) && f.frame.lt(40);
    let a = s.emit(
        Request::SetMotionRate(
            if rolling && f.standing_still {
                MotionRate::Stopped
            } else {
                MotionRate::Normal
            },
        ),
    );
    let b = if f.attack_pressed && f.frame.lt(40) && a.vars.bomb_counter < 8 {
        a.emit(Request::SpawnBomb).with_vars(
            SamusVars { bomb_counter: (a.vars.bomb_counter + 1) as i32, ..a.vars },
        )
    } else {
        a
    };
    let c = if f.special_pressed && rolling {
        morph_exit(b, f)
    } else {
        b
    };
    let d = morph_loop(c, f);
    let e = if f.jump_input && f.frame.gt(11) && f.frame.lt(40) {
        morph_jump(d, f)
    } else {
        d
    };
    if e.vars.shinespark_timer > 0 && f.guard_pressed && f.frame.gt(11) && f.frame.lt(40) {
        ballspark(e)
    } else {
        e
    }
}

/// The morph ball (see `morph_ball`), then: off the air or out of play, the
/// bomb count starts over.
pub open spec fn spec_morphball_crawl(s: SamusState, f: SamusFrame) -> SamusState {
    let a = if is_morph_motion(f.motion_kind) {
        morph_ball(s, f)
    } else {
        s
    };
    if a.vars.bomb_counter != 0 && (a.situation != Situation::Air || is_out_of_play(
        f.status_kind,
    )) {
        a.with_vars(SamusVars { bomb_counter: 0, ..a.vars })
    } else {
        a
    }
}

impl SamusCtx {
    fn morph_exit(&mut self, f: &SamusFrame)
        ensures
            final(self)@ == morph_exit(old(self)@, *f),
    {
        if self.situation == Situation::Ground {
            self.emit(
                Request::ChangeStatusRequest {
                    status: StatusKind::SamusSpecialGroundLw,
                    clear_buffer: true,
                },
            );
            self.emit(Request::InheritMotionAt { motion: MOTION_SPECIAL_LW, frame: 40 });
        } else if self.situation == Situation::Air {
            self.emit(
                Request::ChangeStatusRequest {
                    status: StatusKind::SamusSpecialAirLw,
                    clear_buffer: true,
                },
            );
            self.emit(Request::InheritMotionAt { motion: MOTION_SPECIAL_AIR_LW, frame: 40 });
        }
        self.emit_if(f.stick_x_nonzero, Request::FaceStick);
    }

    fn morph_loop(&mut self, f: &SamusFrame)
        ensures
            final(self)@ == morph_loop(old(self)@, *f),
    {
        if f.frame.is_ge(12) && (f.status_kind == StatusKind::SamusBombJumpG || f.status_kind
            == StatusKind::SamusBombJumpA) {
            if self.situation == Situation::Ground {
                self.emit(
                    Request::ChangeStatusRequest {
                        status: StatusKind::SamusSpecialGroundLw,
                        clear_buffer: false,
                    },
                );
            } else if self.situation == Situation::Air {
                self.emit(
                    Request::ChangeStatusRequest {
                        status: StatusKind::SamusSpecialAirLw,
                        clear_buffer: false,
                    },
                );
            }
            self.emit(Request::InheritMotionAt { motion: MOTION_SPECIAL_LW, frame: 20 });
        } else if f.frame.is_ge(38) && f.frame.is_lt(40) {
            self.emit(Request::InheritMotionAt { motion: MOTION_SPECIAL_LW, frame: 20 });
        }
    }

    fn morph_jump(&mut self, f: &SamusFrame)
        ensures
            final(self)@ == morph_jump(old(self)@, *f),
    {
        if self.situation == Situation::Ground {
            self.become_airborne();
            self.emit(Request::AddJumpSpeed);
            self.emit(
                Request::ChangeStatusRequest {
                    status: StatusKind::SamusSpecialAirLw,
                    clear_buffer: true,
                },
            );
            self.emit(Request::PlayJumpSound);
            self.emit(Request::JumpSmokeEffect);
        } else if self.situation == Situation::Air && f.jumps_used < f.jumps_max {
            self.emit(Request::StopRise);
            self.emit(Request::AddJumpSpeed);
            self.emit(Request::CountJump);
            self.emit(Request::PlayJumpSound);
            self.emit(Request::AerialJumpEffect);
        }
    }

    fn ballspark(&mut self)
        ensures
            final(self)@ == ballspark(old(self)@),
    {
        self.vars.shinespark_used = true;
        self.vars.shinespark_timer = 0;
        let spark = Request::InheritMotionAt {
            motion: MOTION_SPECIAL_AIR_LW_SHINESPARK,
            frame: 18,
        };
        if self.situation == Situation::Ground {
            self.become_airborne();
            self.emit(Request::AddHopSpeed);
            self.emit(
                Request::ChangeStatusRequest {
                    status: StatusKind::SamusSpecialAirLw,
                    clear_buffer: true,
                },
            );
            self.emit(spark);
        } else if self.situation == Situation::Air {
            self.emit(spark);
        }
    }

    fn morph_ball(&mut self, f: &SamusFrame)
        ensures
            final(self)@ == morph_ball(old(self)@, *f),
    {
        let rolling = f.frame.is_ge(20) && f.frame.is_lt(40);
        let rate = if rolling && f.standing_still {
            MotionRate::Stopped
        } else {
            MotionRate::Normal
        };
        self.emit(Request::SetMotionRate(rate));
        if f.attack_pressed && f.frame.is_lt(40) && self.vars.bomb_counter < 8 {
            self.emit(Request::SpawnBomb);
            self.vars.bomb_counter = self.vars.bomb_counter + 1;
        }
        if f.special_pressed && rolling {
            self.morph_exit(f);
        }
        self.morph_loop(f);
        if f.jump_input && f.frame.is_gt(11) && f.frame.is_lt(40) {
            self.morph_jump(f);
        }
        if self.vars.shinespark_timer > 0 && f.guard_pressed && f.frame.is_gt(11)
            && f.frame.is_lt(40) {
            self.ballspark();
        }
    }
}

pub fn morphball_crawl(ctx: &mut SamusCtx, f: &SamusFrame)
    ensures
        final(ctx)@ == spec_morphball_crawl(old(ctx)@, *f),
{
    if morph_motion(f.motion_kind) {
        ctx.morph_ball(f);
    }
    if ctx.vars.bomb_counter != 0 && (ctx.situation != Situation::Air || out_of_play(
        f.status_kind,
    )) {
        ctx.vars.bomb_counter = 0;
    }
}

// ---------------------------------------------------------------------------
// Charge shot cancel
// ---------------------------------------------------------------------------
/// Cancelling the charge in the air by an air dodge is turned into no
/// cancel type.
pub open spec fn spec_nspecial_cancels(s: SamusState, f: SamusFrame) -> SamusState {
    s.emit_if(
        f.status_kind == StatusKind::SamusSpecialNC && f.situation_kind == Situation::Air
            && f.cancel_type_air_escape,
        Request::ResetCancelType,
    )
}

pub fn nspecial_cancels(ctx: &mut SamusCtx, f: &SamusFrame)
    ensures
        final(ctx)@ == spec_nspecial_cancels(old(ctx)@, *f),
{
    ctx.emit_if(
        f.status_kind == StatusKind::SamusSpecialNC && f.situation_kind == Situation::Air
            && f.cancel_type_air_escape,
        Request::ResetCancelType,
    );
}

// ---------------------------------------------------------------------------
// The frame
// ---------------------------------------------------------------------------
/// The frame's common part: missile landing, the morph ball, the charge
/// shot's cancel.
pub open spec fn spec_common_samus(s: SamusState, f: SamusFrame) -> SamusState {
    spec_nspecial_cancels(spec_morphball_crawl(spec_missile_land_cancel(s, f), f), f)
}

pub fn common_samus(ctx: &mut SamusCtx, f: &SamusFrame)
    ensures
        final(ctx)@ == spec_common_samus(old(ctx)@, *f),
{
    missile_land_cancel(ctx, f);
    morphball_crawl(ctx, f);
    nspecial_cancels(ctx, f);
}

/// The frame's moves: switching to super missiles, the aim, flashshift,
/// the speed boost, its loss, storing a shinespark, the aerial shinespark.
/// The effects (`shinespark_effect`) follow, once the game has rolled for
/// sparks on the state this leaves.
pub open spec fn spec_moveset(s: SamusState, f: SamusFrame) -> SamusState {
    let a = spec_change_missiles(s, f);
    let b = a.emit(Request::AimGun(spec_aim_gun(a.situation, f)));
    let c = spec_flashshift(b, f);
    let d = spec_shinespark_charge(c, f);
    let e = spec_shinespark_reset(d, f);
    let g = spec_shinespark_storage(e, f);
    spec_shinespark_air(g, f)
}

pub fn moveset(ctx: &mut SamusCtx, f: &SamusFrame)
    ensures
        final(ctx)@ == spec_moveset(old(ctx)@, *f),
{
    change_missiles(ctx, f);
    let plan = aim_gun(ctx.situation, f);
    ctx.emit(Request::AimGun(plan));
    flashshift(ctx, f);
    shinespark_charge(ctx, f);
    shinespark_reset(ctx, f);
    shinespark_storage(ctx, f);
    shinespark_air(ctx, f);
}


// ---------------------------------------------------------------------------
// Laws
// ---------------------------------------------------------------------------
/// The timers never run below zero, and a stored shinespark never holds more
/// than its 300 frames.
pub open spec fn timers_valid(v: SamusVars) -> bool {
    &&& v.flashshift_cooldown >= 0
    &&& v.flashshift_chain_timer >= 0
    &&& 0 <= v.shinespark_timer <= 300
}

/// A frame's moves keep the timers valid.
pub proof fn law_moveset_keeps_timers(s: SamusState, f: SamusFrame)
    requires
        timers_valid(s.vars),
    ensures
        timers_valid(spec_moveset(s, f).vars),
{
}

/// The frame's common part keeps the timers valid.
pub proof fn law_common_keeps_timers(s: SamusState, f: SamusFrame)
    requires
        timers_valid(s.vars),
    ensures
        timers_valid(spec_common_samus(s, f).vars),
{
}

/// The effects keep the timers valid.
pub proof fn law_effect_keeps_timers(s: SamusState, f: SamusFrame, spot: Option<i32>)
    requires
        timers_valid(s.vars),
    ensures
        timers_valid(spec_shinespark_effect(s, f, spot).vars),
{
}

/// No more than eight bombs are ever counted.
pub proof fn law_bombs_at_most_eight(s: SamusState, f: SamusFrame)
    requires
        0 <= s.vars.bomb_counter <= 8,
    ensures
        0 <= spec_common_samus(s, f).vars.bomb_counter <= 8,
{
}

/// Crouching with the speed boost stores a shinespark for 300 frames and
/// spends the boost.
pub proof fn law_crouch_stores_shinespark(s: SamusState, f: SamusFrame)
    requires
        s.vars.shinespark_ready,
        f.status_kind == StatusKind::SquatWait,
    ensures
        spec_moveset(s, f).vars.shinespark_timer == 300,
        !spec_moveset(s, f).vars.shinespark_ready,
{
}

/// A chain of flashshifts stops at three: with three in the chain, no
/// attack is cancelled into another.
pub proof fn law_flashshift_chain_of_three(s: SamusState, f: SamusFrame)
    requires
        s.vars.flashshift_chain_count >= 3,
    ensures
        forall|i: int|
            s.requests.len() <= i < spec_moveset(s, f).requests.len() ==> spec_moveset(
                s,
                f,
            ).requests[i] != (Request::ChangeStatus {
                status: StatusKind::SpecialS,
                clear_buffer: false,
            }),
{
}

/// Off the air, flashshift is never left spent.
pub proof fn law_flashshift_restored_off_air(s: SamusState, f: SamusFrame)
    requires
        s.situation != Situation::Air,
    ensures
        !spec_moveset(s, f).vars.flashshift_used,
{
}

/// Without the speed boost no speed lines are left running, and without a
/// stored shinespark no aura is.
pub proof fn law_effects_follow_state(s: SamusState, f: SamusFrame, spot: Option<i32>)
    ensures
        !spec_shinespark_effect(s, f, spot).vars.shinespark_ready ==> spec_shinespark_effect(
            s,
            f,
            spot,
        ).vars.speedline_handle == -1,
        spec_shinespark_effect(s, f, spot).vars.shinespark_timer == 0 ==> spec_shinespark_effect(
            s,
            f,
            spot,
        ).vars.stored_handle == -1,
{
}


/// `t` keeps the requests of `s`, in front and in order.
pub open spec fn keeps_requests(s: SamusState, t: SamusState) -> bool {
    &&& s.requests.len() <= t.requests.len()
    &&& forall|i: int| 0 <= i < s.requests.len() ==> t.requests[i] == s.requests[i]
}

proof fn lemma_keeps_trans(a: SamusState, b: SamusState, c: SamusState)
    requires
        keeps_requests(a, b),
        keeps_requests(b, c),
    ensures
        keeps_requests(a, c),
{
}

proof fn lemma_keeps_emit(s: SamusState, r: Request)
    ensures
        keeps_requests(s, s.emit(r)),
{
}

proof fn lemma_keeps_change_missiles(s: SamusState, f: SamusFrame)
    ensures
        keeps_requests(s, spec_change_missiles(s, f)),
{
}

proof fn lemma_keeps_flashshift(s: SamusState, f: SamusFrame)
    ensures
        keeps_requests(s, spec_flashshift(s, f)),
{
}

proof fn lemma_keeps_shinespark_charge(s: SamusState, f: SamusFrame)
    ensures
        keeps_requests(s, spec_shinespark_charge(s, f)),
{
}

proof fn lemma_keeps_shinespark_reset(s: SamusState, f: SamusFrame)
    ensures
        keeps_requests(s, spec_shinespark_reset(s, f)),
{
}

proof fn lemma_keeps_shinespark_storage(s: SamusState, f: SamusFrame)
    ensures
        keeps_requests(s, spec_shinespark_storage(s, f)),
{
}

proof fn lemma_keeps_shinespark_air(s: SamusState, f: SamusFrame)
    ensures
        keeps_requests(s, spec_shinespark_air(s, f)),
{
}

proof fn lemma_keeps_missile_land_cancel(s: SamusState, f: SamusFrame)
    ensures
        keeps_requests(s, spec_missile_land_cancel(s, f)),
{
}

proof fn lemma_keeps_nspecial_cancels(s: SamusState, f: SamusFrame)
    ensures
        keeps_requests(s, spec_nspecial_cancels(s, f)),
{
}

proof fn lemma_keeps_morph_exit(s: SamusState, f: SamusFrame)
    ensures
        keeps_requests(s, morph_exit(s, f)),
{
}

proof fn lemma_keeps_morph_loop(s: SamusState, f: SamusFrame)
    ensures
        keeps_requests(s, morph_loop(s, f)),
{
}

proof fn lemma_keeps_morph_jump(s: SamusState, f: SamusFrame)
    ensures
        keeps_requests(s, morph_jump(s, f)),
{
}

proof fn lemma_keeps_ballspark(s: SamusState)
    ensures
        keeps_requests(s, ballspark(s)),
{
}

proof fn lemma_keeps_shinespark_effect(s: SamusState, f: SamusFrame, spot: Option<i32>)
    ensures
        keeps_requests(s, spec_shinespark_effect(s, f, spot)),
{
}

proof fn lemma_keeps_morph_ball(s: SamusState, f: SamusFrame)
    ensures
        keeps_requests(s, morph_ball(s, f)),
{
    let rolling = f.frame.ge(20) && f.frame.lt(40);
    let a = s.emit(
        Request::SetMotionRate(
            if rolling && f.standing_still {
                MotionRate::Stopped
            } else {
                MotionRate::Normal
            },
        ),
    );
    let b = if f.attack_pressed && f.frame.lt(40) && a.vars.bomb_counter < 8 {
        a.emit(Request::SpawnBomb).with_vars(
            SamusVars { bomb_counter: (a.vars.bomb_counter + 1) as i32, ..a.vars },
        )
    } else {
        a
    };
    let c = if f.special_pressed && rolling {
        morph_exit(b, f)
    } else {
        b
    };
    let d = morph_loop(c, f);
    let e = if f.jump_input && f.frame.gt(11) && f.frame.lt(40) {
        morph_jump(d, f)
    } else {
        d
    };
    lemma_keeps_morph_exit(b, f);
    lemma_keeps_morph_loop(c, f);
    lemma_keeps_morph_jump(d, f);
    lemma_keeps_ballspark(e);
    lemma_keeps_trans(s, a, b);
    lemma_keeps_trans(s, b, c);
    lemma_keeps_trans(s, c, d);
    lemma_keeps_trans(s, d, e);
    lemma_keeps_trans(s, e, morph_ball(s, f));
}

proof fn lemma_keeps_morphball_crawl(s: SamusState, f: SamusFrame)
    ensures
        keeps_requests(s, spec_morphball_crawl(s, f)),
{
    lemma_keeps_morph_ball(s, f);
}

/// `s`'s requests, in front of `t`'s.
proof fn lemma_prefix(s: SamusState, t: SamusState)
    requires
        keeps_requests(s, t),
    ensures
        s.requests.is_prefix_of(t.requests),
{
    assert(s.requests =~= t.requests.subrange(0, s.requests.len() as int));
}

/// A frame only adds requests: those made before stay, in order, in front,
/// through its moves, its effects and its common part.
pub proof fn law_requests_only_appended(s: SamusState, f: SamusFrame, spot: Option<i32>)
    ensures
        s.requests.is_prefix_of(spec_moveset(s, f).requests),
        s.requests.is_prefix_of(spec_shinespark_effect(s, f, spot).requests),
        s.requests.is_prefix_of(spec_common_samus(s, f).requests),
{
    let a = spec_change_missiles(s, f);
    let b = a.emit(Request::AimGun(spec_aim_gun(a.situation, f)));
    let c = spec_flashshift(b, f);
    let d = spec_shinespark_charge(c, f);
    let e = spec_shinespark_reset(d, f);
    let g = spec_shinespark_storage(e, f);
    lemma_keeps_change_missiles(s, f);
    lemma_keeps_emit(a, Request::AimGun(spec_aim_gun(a.situation, f)));
    lemma_keeps_flashshift(b, f);
    lemma_keeps_shinespark_charge(c, f);
    lemma_keeps_shinespark_reset(d, f);
    lemma_keeps_shinespark_storage(e, f);
    lemma_keeps_shinespark_air(g, f);
    lemma_keeps_trans(s, a, b);
    lemma_keeps_trans(s, b, c);
    lemma_keeps_trans(s, c, d);
    lemma_keeps_trans(s, d, e);
    lemma_keeps_trans(s, e, g);
    lemma_keeps_trans(s, g, spec_moveset(s, f));
    lemma_prefix(s, spec_moveset(s, f));
    lemma_keeps_shinespark_effect(s, f, spot);
    lemma_prefix(s, spec_shinespark_effect(s, f, spot));
    let m = spec_missile_land_cancel(s, f);
    let n = spec_morphball_crawl(m, f);
    lemma_keeps_missile_land_cancel(s, f);
    lemma_keeps_morphball_crawl(m, f);
    lemma_keeps_nspecial_cancels(n, f);
    lemma_keeps_trans(s, m, n);
    lemma_keeps_trans(s, n, spec_common_samus(s, f));
    lemma_prefix(s, spec_common_samus(s, f));
}


// ---------------------------------------------------------------------------
// Behaviour laws, stated on the frame's fields
// ---------------------------------------------------------------------------
/// `r` is among the requests that `t` has added to those of `s`.
pub open spec fn appends(s: SamusState, t: SamusState, r: Request) -> bool {
    exists|i: int| s.requests.len() <= i < t.requests.len() && t.requests[i] == r
}

/// The speed boost survives the frame in the air while jumping, attacking,
/// falling or in the morph ball, when Samus is fast or on a wall; on the
/// ground in the morph ball up to frame 11 or when fast; in a dash, run,
/// crouch, down tilt, dash attack, landing or wall jump; braking before
/// frame 6; and in a jump squat toward the stick.  In any other status it is
/// lost.
pub proof fn law_speed_boost_kept(s: SamusState, f: SamusFrame)
    requires
        s.vars.shinespark_ready,
    ensures
        ({
            let st = f.status_kind;
            let airborne_kind = st == StatusKind::Jump || st == StatusKind::AttackAir || st
                == StatusKind::Fall || st == StatusKind::SamusSpecialGroundLw || st
                == StatusKind::SamusSpecialAirLw;
            let morph = st == StatusKind::SamusSpecialGroundLw || st
                == StatusKind::SamusSpecialAirLw;
            let keeping = st == StatusKind::AttackDash || st == StatusKind::Dash || st
                == StatusKind::Run || st == StatusKind::Squat || st == StatusKind::SquatWait
                || st == StatusKind::AttackLw3 || st == StatusKind::Landing || st
                == StatusKind::LandingLight || st == StatusKind::WallJump;
            let kept = keeping || (st == StatusKind::RunBrake && f.frame.lt(6)) || (st
                == StatusKind::JumpSquat && f.stick_forward) || (airborne_kind && s.situation
                == Situation::Air && (f.fast || f.touching_wall)) || (morph && s.situation
                == Situation::Ground && (f.frame.le(11) || f.fast));
            spec_shinespark_reset(s, f).vars.shinespark_ready == kept
        }),
{
}

/// A fast jump keeps the speed boost.
pub proof fn law_fast_airborne_keeps_boost(s: SamusState, f: SamusFrame)
    requires
        s.vars.shinespark_ready,
        s.situation == Situation::Air,
        f.status_kind == StatusKind::Jump || f.status_kind == StatusKind::AttackAir
            || f.status_kind == StatusKind::Fall || f.status_kind
            == StatusKind::SamusSpecialGroundLw || f.status_kind == StatusKind::SamusSpecialAirLw,
        f.fast,
    ensures
        spec_shinespark_reset(s, f).vars.shinespark_ready,
{
    law_speed_boost_kept(s, f);
}

/// A morph ball that loses the speed boost restarts its status for the
/// situation, keeping its frame; the glow goes when nothing is stored or in
/// use; outside play the store is dropped; the shinespark is in use only in
/// a dash attack or a shinespark motion.
pub proof fn law_shinespark_reset_effects(s: SamusState, f: SamusFrame)
    ensures
        ({
            let t = spec_shinespark_reset(s, f);
            let lost = s.vars.shinespark_ready && !t.vars.shinespark_ready;
            let morph_motion = f.motion_kind == MOTION_SPECIAL_LW || f.motion_kind
                == MOTION_SPECIAL_AIR_LW;
            &&& lost && morph_motion && s.situation == Situation::Ground ==> t.requests[s.requests.len() as int]
                == status_request(StatusKind::SamusSpecialGroundLw, true)
                && t.requests[s.requests.len() + 1int] == Request::InheritMotion(MOTION_SPECIAL_LW)
            &&& lost && morph_motion && s.situation == Situation::Air ==> t.requests[s.requests.len() as int]
                == status_request(StatusKind::SamusSpecialAirLw, true)
                && t.requests[s.requests.len() + 1int] == Request::InheritMotion(
                    MOTION_SPECIAL_AIR_LW,
                )
            &&& !(lost && morph_motion) ==> t.requests.len() <= s.requests.len() + 1
            &&& (f.status_kind == StatusKind::Entry || f.status_kind == StatusKind::Dead
                || f.status_kind == StatusKind::Rebirth) ==> t.vars.shinespark_timer == 0
            &&& !(f.status_kind == StatusKind::Entry || f.status_kind == StatusKind::Dead
                || f.status_kind == StatusKind::Rebirth) ==> t.vars.shinespark_timer
                == s.vars.shinespark_timer
            &&& t.vars.shinespark_used == (s.vars.shinespark_used && (f.motion_kind
                == MOTION_ATTACK_DASH || f.motion_kind == MOTION_SPECIAL_AIR_LW_SHINESPARK))
            &&& (t.vars.shinespark_timer == 0 && !t.vars.shinespark_used) == (t.requests.len() > 0
                && t.requests.last() == Request::CancelMainColor && t.requests.len()
                > s.requests.len())
            &&& !s.vars.shinespark_ready ==> !t.vars.shinespark_ready
        }),
{
}

/// Near the end of the rolling frames (from frame 38 to 40) the morph ball
/// loops back to frame 20 of its motion, unless it is a bomb jump's.
pub proof fn law_morph_ball_loops(s: SamusState, f: SamusFrame)
    requires
        f.motion_kind == MOTION_SPECIAL_LW || f.motion_kind == MOTION_SPECIAL_AIR_LW,
        f.frame.ge(38),
        f.frame.lt(40),
        f.status_kind != StatusKind::SamusBombJumpG,
        f.status_kind != StatusKind::SamusBombJumpA,
    ensures
        appends(
            s,
            spec_morphball_crawl(s, f),
            Request::InheritMotionAt { motion: MOTION_SPECIAL_LW, frame: 20 },
        ),
{
    let r = Request::InheritMotionAt { motion: MOTION_SPECIAL_LW, frame: 20 };
    let rolling = f.frame.ge(20) && f.frame.lt(40);
    let a = s.emit(
        Request::SetMotionRate(
            if rolling && f.standing_still {
                MotionRate::Stopped
            } else {
                MotionRate::Normal
            },
        ),
    );
    let b = if f.attack_pressed && f.frame.lt(40) && a.vars.bomb_counter < 8 {
        a.emit(Request::SpawnBomb).with_vars(
            SamusVars { bomb_counter: (a.vars.bomb_counter + 1) as i32, ..a.vars },
        )
    } else {
        a
    };
    let c = if f.special_pressed && rolling {
        morph_exit(b, f)
    } else {
        b
    };
    let d = morph_loop(c, f);
    let e = if f.jump_input && f.frame.gt(11) && f.frame.lt(40) {
        morph_jump(d, f)
    } else {
        d
    };
    let g = morph_ball(s, f);
    lemma_keeps_emit(s, a.requests.last());
    lemma_keeps_morph_exit(b, f);
    lemma_keeps_morph_jump(d, f);
    lemma_keeps_ballspark(e);
    lemma_keeps_trans(s, a, b);
    lemma_keeps_trans(s, b, c);
    assert(d.requests[d.requests.len() - 1] == r);
    assert(keeps_requests(d, g));
    let t = spec_morphball_crawl(s, f);
    assert(keeps_requests(g, t));
    lemma_keeps_trans(d, g, t);
    assert(t.requests[d.requests.len() - 1] == r);
}

/// Mid-chain (the chain timer still running after this frame's tick, fewer
/// than three in the chain), a side special input cancels any attack into
/// flashshift, in any situation; otherwise flashshift is never requested.
pub proof fn law_flashshift_chain_cancel(s: SamusState, f: SamusFrame)
    ensures
        ({
            let t = spec_flashshift(s, f);
            let st = f.status_kind;
            let attack = st == StatusKind::Attack || st == StatusKind::AttackDash || st
                == StatusKind::AttackS3 || st == StatusKind::AttackLw3 || st
                == StatusKind::AttackHi3 || st == StatusKind::AttackS4 || st
                == StatusKind::AttackLw4 || st == StatusKind::AttackHi4 || st
                == StatusKind::AttackAir;
            let cancel = s.vars.flashshift_chain_timer >= 2 && s.vars.flashshift_chain_count < 3
                && f.special_s_command && attack;
            let x = Request::ChangeStatus { status: StatusKind::SpecialS, clear_buffer: false };
            &&& cancel ==> t.requests.len() > s.requests.len() && t.requests.last() == x
            &&& !cancel ==> forall|i: int|
                s.requests.len() <= i < t.requests.len() ==> t.requests[i] != x
        }),
{
}

/// Flashshift's timers tick down by one while running: the cooldown's end
/// shows the ready flash; the chain's end empties the chain and spends
/// flashshift in the air; off the air or out of play it is never spent.
pub proof fn law_flashshift_timers(s: SamusState, f: SamusFrame)
    ensures
        ({
            let t = spec_flashshift(s, f);
            let v = s.vars;
            let flash = Request::FlashshiftReadyFlash { flipped: f.flip_effects };
            &&& v.flashshift_cooldown > 0 ==> t.vars.flashshift_cooldown == v.flashshift_cooldown
                - 1
            &&& v.flashshift_cooldown <= 0 ==> t.vars.flashshift_cooldown == v.flashshift_cooldown
            &&& v.flashshift_cooldown == 1 ==> t.requests.len() > s.requests.len()
                && t.requests[s.requests.len() as int] == flash
            &&& v.flashshift_cooldown != 1 ==> forall|i: int|
                s.requests.len() <= i < t.requests.len() ==> t.requests[i] != flash
            &&& v.flashshift_chain_timer > 0 ==> t.vars.flashshift_chain_timer
                == v.flashshift_chain_timer - 1
            &&& v.flashshift_chain_timer <= 0 ==> t.vars.flashshift_chain_timer
                == v.flashshift_chain_timer
            &&& t.vars.flashshift_chain_count == (if v.flashshift_chain_timer == 1 {
                0
            } else {
                v.flashshift_chain_count
            })
            &&& t.vars.flashshift_used == ((v.flashshift_used || v.flashshift_chain_timer == 1)
                && s.situation == Situation::Air && !(f.status_kind == StatusKind::Dead
                || f.status_kind == StatusKind::Rebirth || f.status_kind == StatusKind::Win
                || f.status_kind == StatusKind::Lose || f.status_kind == StatusKind::Entry))
            &&& t.situation == s.situation
        }),
{
}

/// A missile or side special that touches down from the air lands (from
/// script); any other frame adds nothing.  Nothing else changes.
pub proof fn law_missile_lands(s: SamusState, f: SamusFrame)
    ensures
        ({
            let t = spec_missile_land_cancel(s, f);
            let st = f.status_kind;
            let missile = st == StatusKind::SpecialS || st == StatusKind::SamusSpecialS1G || st
                == StatusKind::SamusSpecialS1A || st == StatusKind::SamusSpecialS2G || st
                == StatusKind::SamusSpecialS2A;
            let land = missile && f.situation_kind == Situation::Ground && f.prev_situation_kind
                == Situation::Air;
            &&& t.requests == (if land {
                s.requests.push(
                    Request::ChangeStatusFromScript {
                        status: StatusKind::Landing,
                        clear_buffer: false,
                    },
                )
            } else {
                s.requests
            })
            &&& t.vars == s.vars
            &&& t.situation == s.situation
        }),
{
}

/// Attack held in the first six frames of the charge shot's start requests
/// super missiles: grounded on the ground, aerial elsewhere.  Otherwise
/// nothing is added.  Nothing else changes.
pub proof fn law_change_to_super_missiles(s: SamusState, f: SamusFrame)
    ensures
        ({
            let t = spec_change_missiles(s, f);
            let go = f.status_kind == StatusKind::SpecialN && f.frame.half_steps() <= 12
                && f.attack_held;
            let to = if s.situation == Situation::Ground {
                StatusKind::SamusSpecialS2G
            } else {
                StatusKind::SamusSpecialS2A
            };
            &&& t.requests == (if go {
                s.requests.push(Request::ChangeStatusReq { status: to, clear_buffer: false })
            } else {
                s.requests
            })
            &&& t.vars == s.vars
            &&& t.situation == s.situation
        }),
{
}

/// The aim: super missiles (grounded or aerial) aim from frame 10 to 27; the
/// charge shot aims while charging, in its first 22 frames of firing and its
/// first 12 of starting; nothing else aims.  The arm flips for the grounded
/// super missile, both arms move while charging, the aerial super missile
/// eases with the shoulder, and the aim is airborne exactly in the air.
pub proof fn law_aim(situation: Situation, f: SamusFrame)
    ensures
        ({
            let p = spec_aim_gun(situation, f);
            let st = f.status_kind;
            let h = f.frame.half_steps();
            let missile = (st == StatusKind::SamusSpecialS2G || st == StatusKind::SamusSpecialS2A)
                && 20 <= h <= 54;
            let charge = st == StatusKind::SamusSpecialNH || (st == StatusKind::SamusSpecialNF && h
                <= 44) || (st == StatusKind::SpecialN && h <= 24);
            &&& (p.mode == AimMode::SuperMissile) == missile
            &&& (p.mode == AimMode::ChargeShot) == (charge && !missile)
            &&& (p.mode == AimMode::Idle) == (!charge && !missile)
            &&& p.flip == (st == StatusKind::SamusSpecialS2G)
            &&& p.both_arms == (st == StatusKind::SamusSpecialNH)
            &&& p.airborne == (situation == Situation::Air)
            &&& p.ease_with_shoulder == (st == StatusKind::SamusSpecialS2A)
        }),
{
}

/// Running past frame 35 starts the speed boost, with its sound only when it
/// was not already on; the boost is never lost here.  The last request sets
/// the jump speed, boosted exactly when the boost is on after the frame;
/// before it the run speed is set the same way, except in a down tilt.
pub proof fn law_speed_boost_start(s: SamusState, f: SamusFrame)
    ensures
        ({
            let t = spec_shinespark_charge(s, f);
            let start = f.status_kind == StatusKind::Run && f.frame.half_steps() > 70;
            let on = s.vars.shinespark_ready || start;
            let boost = if on {
                SpeedBoost::Boosted
            } else {
                SpeedBoost::Normal
            };
            let sound = if start && !s.vars.shinespark_ready {
                seq![Request::PlaySpeedboostSound]
            } else {
                Seq::empty()
            };
            let run = if f.status_kind != StatusKind::AttackLw3 {
                seq![Request::SetRunSpeedMul(boost)]
            } else {
                Seq::empty()
            };
            &&& t.vars == SamusVars { shinespark_ready: on, ..s.vars }
            &&& t.requests == s.requests + sound + run + seq![Request::SetJumpSpeedMaxMul(boost)]
            &&& t.situation == s.situation
        }),
{
    let t = spec_shinespark_charge(s, f);
    let start = f.status_kind == StatusKind::Run && f.frame.half_steps() > 70;
    let on = s.vars.shinespark_ready || start;
    let boost = if on {
        SpeedBoost::Boosted
    } else {
        SpeedBoost::Normal
    };
    let sound = if start && !s.vars.shinespark_ready {
        seq![Request::PlaySpeedboostSound]
    } else {
        Seq::empty()
    };
    let run = if f.status_kind != StatusKind::AttackLw3 {
        seq![Request::SetRunSpeedMul(boost)]
    } else {
        Seq::empty()
    };
    assert(t.requests =~= s.requests + sound + run + seq![Request::SetJumpSpeedMaxMul(boost)]);
}

/// A stored shinespark runs down by one a frame, glowing purple each such
/// frame; crouching while boosted then stores a fresh one of 300 frames,
/// spends the boost and plays the store sound.  Nothing else changes.
pub proof fn law_shinespark_store(s: SamusState, f: SamusFrame)
    ensures
        ({
            let t = spec_shinespark_storage(s, f);
            let running = s.vars.shinespark_timer > 0;
            let store = f.status_kind == StatusKind::SquatWait && s.vars.shinespark_ready;
            let glow = if running {
                seq![Request::StoredShinesparkColor]
            } else {
                Seq::empty()
            };
            let sound = if store {
                seq![Request::PlayStoreSound]
            } else {
                Seq::empty()
            };
            &&& t.requests == s.requests + glow + sound
            &&& t.vars.shinespark_timer == (if store {
                300
            } else if running {
                s.vars.shinespark_timer - 1
            } else {
                s.vars.shinespark_timer as int
            })
            &&& t.vars.shinespark_ready == (s.vars.shinespark_ready && !store)
            &&& t.vars == SamusVars {
                shinespark_timer: t.vars.shinespark_timer,
                shinespark_ready: t.vars.shinespark_ready,
                ..s.vars
            }
            &&& t.situation == s.situation
        }),
{
    let t = spec_shinespark_storage(s, f);
    let running = s.vars.shinespark_timer > 0;
    let store = f.status_kind == StatusKind::SquatWait && s.vars.shinespark_ready;
    let glow = if running {
        seq![Request::StoredShinesparkColor]
    } else {
        Seq::empty()
    };
    let sound = if store {
        seq![Request::PlayStoreSound]
    } else {
        Seq::empty()
    };
    assert(t.requests =~= s.requests + glow + sound);
}

/// With a shinespark stored, special held in an aerial up to its frame 6
/// turns it into the dash attack's motion; otherwise nothing is added.
pub proof fn law_aerial_shinespark(s: SamusState, f: SamusFrame)
    ensures
        ({
            let t = spec_shinespark_air(s, f);
            let go = s.vars.shinespark_timer > 0 && f.special_held && f.status_kind
                == StatusKind::AttackAir && f.frame.half_steps() <= 12;
            &&& t.requests == (if go {
                s.requests.push(Request::ChangeMotion(MOTION_ATTACK_DASH))
            } else {
                s.requests
            })
            &&& t.vars == s.vars
            &&& t.situation == s.situation
        }),
{
}

/// An air dodge cancel of the charge in the air resets the cancel type;
/// otherwise nothing is added.
pub proof fn law_charge_shot_air_dodge(s: SamusState, f: SamusFrame)
    ensures
        ({
            let t = spec_nspecial_cancels(s, f);
            let go = f.status_kind == StatusKind::SamusSpecialNC && f.situation_kind
                == Situation::Air && f.cancel_type_air_escape;
            &&& t.requests == (if go {
                s.requests.push(Request::ResetCancelType)
            } else {
                s.requests
            })
            &&& t.vars == s.vars
            &&& t.situation == s.situation
        }),
{
}


// The morph ball's stages, in the order in which a frame runs them.
spec fn mb_rate(s: SamusState, f: SamusFrame) -> SamusState {
    let rolling = f.frame.ge(20) && f.frame.lt(40);
    s.emit(
        Request::SetMotionRate(
            if rolling && f.standing_still {
                MotionRate::Stopped
            } else {
                MotionRate::Normal
            },
        ),
    )
}

spec fn mb_bomb(s: SamusState, f: SamusFrame) -> SamusState {
    let a = mb_rate(s, f);
    if f.attack_pressed && f.frame.lt(40) && a.vars.bomb_counter < 8 {
        a.emit(Request::SpawnBomb).with_vars(
            SamusVars { bomb_counter: (a.vars.bomb_counter + 1) as i32, ..a.vars },
        )
    } else {
        a
    }
}

spec fn mb_exit(s: SamusState, f: SamusFrame) -> SamusState {
    let b = mb_bomb(s, f);
    if f.special_pressed && f.frame.ge(20) && f.frame.lt(40) {
        morph_exit(b, f)
    } else {
        b
    }
}

spec fn mb_loop(s: SamusState, f: SamusFrame) -> SamusState {
    morph_loop(mb_exit(s, f), f)
}

spec fn mb_jump(s: SamusState, f: SamusFrame) -> SamusState {
    let d = mb_loop(s, f);
    if f.jump_input && f.frame.gt(11) && f.frame.lt(40) {
        morph_jump(d, f)
    } else {
        d
    }
}

proof fn lemma_morph_stages(s: SamusState, f: SamusFrame)
    requires
        is_morph_motion(f.motion_kind),
    ensures
        morph_ball(s, f) == (if mb_jump(s, f).vars.shinespark_timer > 0 && f.guard_pressed
            && f.frame.gt(11) && f.frame.lt(40) {
            ballspark(mb_jump(s, f))
        } else {
            mb_jump(s, f)
        }),
        keeps_requests(s, mb_rate(s, f)),
        keeps_requests(mb_rate(s, f), spec_morphball_crawl(s, f)),
        keeps_requests(mb_bomb(s, f), spec_morphball_crawl(s, f)),
        keeps_requests(mb_exit(s, f), spec_morphball_crawl(s, f)),
        keeps_requests(mb_loop(s, f), spec_morphball_crawl(s, f)),
        keeps_requests(mb_jump(s, f), spec_morphball_crawl(s, f)),
        keeps_requests(morph_ball(s, f), spec_morphball_crawl(s, f)),
        mb_jump(s, f).vars.shinespark_timer == s.vars.shinespark_timer,
        mb_loop(s, f).situation == s.situation,
        mb_exit(s, f).situation == s.situation,
{
    let a = mb_rate(s, f);
    let b = mb_bomb(s, f);
    let c = mb_exit(s, f);
    let d = mb_loop(s, f);
    let e = mb_jump(s, f);
    let g = morph_ball(s, f);
    let t = spec_morphball_crawl(s, f);
    lemma_keeps_emit(s, a.requests.last());
    lemma_keeps_morph_exit(b, f);
    lemma_keeps_morph_loop(c, f);
    lemma_keeps_morph_jump(d, f);
    lemma_keeps_ballspark(e);
    assert(keeps_requests(e, g));
    assert(keeps_requests(g, t));
    lemma_keeps_trans(e, g, t);
    lemma_keeps_trans(d, e, t);
    lemma_keeps_trans(c, d, t);
    lemma_keeps_trans(b, c, t);
    assert(keeps_requests(a, b));
    lemma_keeps_trans(a, b, t);
}

/// `r` was added at position `i`, and what follows kept it.
proof fn lemma_appended_at(s: SamusState, x: SamusState, t: SamusState, i: int, r: Request)
    requires
        keeps_requests(x, t),
        s.requests.len() <= i < x.requests.len(),
        x.requests[i] == r,
    ensures
        appends(s, t, r),
{
    assert(t.requests[i] == r);
}

/// In the morph ball the frame first sets the motion's rate: stopped while
/// standing still from frame 20 to 40, normal otherwise.  Outside the morph
/// ball's motions no request is added, the situation stays, and of the
/// variables only the bomb count may start over.
pub proof fn law_morph_ball_rate(s: SamusState, f: SamusFrame)
    ensures
        ({
            let t = spec_morphball_crawl(s, f);
            let h = f.frame.half_steps();
            let morph = f.motion_kind == MOTION_SPECIAL_LW || f.motion_kind
                == MOTION_SPECIAL_AIR_LW;
            &&& morph ==> t.requests.len() > s.requests.len() && t.requests[s.requests.len() as int]
                == Request::SetMotionRate(
                if 40 <= h < 80 && f.standing_still {
                    MotionRate::Stopped
                } else {
                    MotionRate::Normal
                },
            )
            &&& !morph ==> t.requests == s.requests && t.situation == s.situation && t.vars
                == SamusVars { bomb_counter: t.vars.bomb_counter, ..s.vars }
        }),
{
    if is_morph_motion(f.motion_kind) {
        lemma_morph_stages(s, f);
        let a = mb_rate(s, f);
        assert(a.requests[s.requests.len() as int] == a.requests.last());
    }
}

/// The bomb count: a bomb laid (attack pressed in the morph ball before
/// frame 40, fewer than eight out) adds one and spawns a bomb; off the air
/// or out of play, after the frame's moves, the count starts over.
pub proof fn law_morph_ball_bombs(s: SamusState, f: SamusFrame)
    ensures
        ({
            let t = spec_morphball_crawl(s, f);
            let morph = f.motion_kind == MOTION_SPECIAL_LW || f.motion_kind
                == MOTION_SPECIAL_AIR_LW;
            let lay = morph && f.attack_pressed && f.frame.half_steps() < 80
                && s.vars.bomb_counter < 8;
            let st = f.status_kind;
            let out = st == StatusKind::Dead || st == StatusKind::Rebirth || st == StatusKind::Win
                || st == StatusKind::Lose || st == StatusKind::Entry;
            &&& lay ==> appends(s, t, Request::SpawnBomb)
            &&& t.vars.bomb_counter == (if t.situation != Situation::Air || out {
                0
            } else if lay {
                s.vars.bomb_counter + 1
            } else {
                s.vars.bomb_counter as int
            })
        }),
{
    if is_morph_motion(f.motion_kind) {
        lemma_morph_stages(s, f);
        let a = mb_rate(s, f);
        let b = mb_bomb(s, f);
        if f.attack_pressed && f.frame.lt(40) && s.vars.bomb_counter < 8 {
            lemma_appended_at(s, b, spec_morphball_crawl(s, f), b.requests.len() - 1, Request::SpawnBomb);
        }
    }
}

/// Special pressed in the morph ball from frame 20 to 40 leaves it: on the
/// ground by the grounded status at frame 40 of its motion, in the air by
/// the aerial one; Samus then faces a tilted stick.
pub proof fn law_morph_ball_exit(s: SamusState, f: SamusFrame)
    requires
        f.motion_kind == MOTION_SPECIAL_LW || f.motion_kind == MOTION_SPECIAL_AIR_LW,
        f.special_pressed,
        40 <= f.frame.half_steps() < 80,
    ensures
        ({
            let t = spec_morphball_crawl(s, f);
            &&& s.situation == Situation::Ground ==> appends(
                s,
                t,
                status_request(StatusKind::SamusSpecialGroundLw, true),
            ) && appends(s, t, Request::InheritMotionAt { motion: MOTION_SPECIAL_LW, frame: 40 })
            &&& s.situation == Situation::Air ==> appends(
                s,
                t,
                status_request(StatusKind::SamusSpecialAirLw, true),
            ) && appends(
                s,
                t,
                Request::InheritMotionAt { motion: MOTION_SPECIAL_AIR_LW, frame: 40 },
            )
            &&& f.stick_x_nonzero ==> appends(s, t, Request::FaceStick)
        }),
{
    lemma_morph_stages(s, f);
    let b = mb_bomb(s, f);
    let c = mb_exit(s, f);
    let t = spec_morphball_crawl(s, f);
    assert(keeps_requests(s, b));
    let n = b.requests.len() as int;
    if s.situation == Situation::Ground {
        lemma_appended_at(s, c, t, n, status_request(StatusKind::SamusSpecialGroundLw, true));
        lemma_appended_at(s, c, t, n + 1, Request::InheritMotionAt { motion: MOTION_SPECIAL_LW, frame: 40 });
    } else if s.situation == Situation::Air {
        lemma_appended_at(s, c, t, n, status_request(StatusKind::SamusSpecialAirLw, true));
        lemma_appended_at(s, c, t, n + 1, Request::InheritMotionAt { motion: MOTION_SPECIAL_AIR_LW, frame: 40 });
    }
    if f.stick_x_nonzero {
        lemma_appended_at(s, c, t, c.requests.len() - 1, Request::FaceStick);
    }
}

/// From frame 12 of a bomb jump in the morph ball's motion, Samus goes back
/// into the ball's status for her situation and to frame 20 of its rolling
/// loop.
pub proof fn law_bomb_jump_back_into_ball(s: SamusState, f: SamusFrame)
    requires
        f.motion_kind == MOTION_SPECIAL_LW || f.motion_kind == MOTION_SPECIAL_AIR_LW,
        f.frame.half_steps() >= 24,
        f.status_kind == StatusKind::SamusBombJumpG || f.status_kind
            == StatusKind::SamusBombJumpA,
    ensures
        ({
            let t = spec_morphball_crawl(s, f);
            &&& appends(s, t, Request::InheritMotionAt { motion: MOTION_SPECIAL_LW, frame: 20 })
            &&& s.situation == Situation::Ground ==> appends(
                s,
                t,
                status_request(StatusKind::SamusSpecialGroundLw, false),
            )
            &&& s.situation == Situation::Air ==> appends(
                s,
                t,
                status_request(StatusKind::SamusSpecialAirLw, false),
            )
        }),
{
    lemma_morph_stages(s, f);
    let c = mb_exit(s, f);
    let d = mb_loop(s, f);
    let t = spec_morphball_crawl(s, f);
    assert(keeps_requests(s, c));
    let n = c.requests.len() as int;
    lemma_appended_at(s, d, t, d.requests.len() - 1, Request::InheritMotionAt { motion: MOTION_SPECIAL_LW, frame: 20 });
    if s.situation == Situation::Ground {
        lemma_appended_at(s, d, t, n, status_request(StatusKind::SamusSpecialGroundLw, false));
    } else if s.situation == Situation::Air {
        lemma_appended_at(s, d, t, n, status_request(StatusKind::SamusSpecialAirLw, false));
    }
}

/// A jump input in the morph ball after frame 11 and before 40 jumps: from
/// the ground Samus becomes airborne and enters the aerial ball with a jump
/// and its smoke; in the air, with a jump left, she jumps again and the jump
/// is counted.
pub proof fn law_morph_ball_jump(s: SamusState, f: SamusFrame)
    requires
        f.motion_kind == MOTION_SPECIAL_LW || f.motion_kind == MOTION_SPECIAL_AIR_LW,
        f.jump_input,
        22 < f.frame.half_steps() < 80,
    ensures
        ({
            let t = spec_morphball_crawl(s, f);
            &&& s.situation == Situation::Ground ==> t.situation == Situation::Air && appends(
                s,
                t,
                status_request(StatusKind::SamusSpecialAirLw, true),
            ) && appends(s, t, Request::AddJumpSpeed) && appends(s, t, Request::JumpSmokeEffect)
            &&& s.situation == Situation::Air && f.jumps_used < f.jumps_max ==> appends(
                s,
                t,
                Request::CountJump,
            ) && appends(s, t, Request::AddJumpSpeed) && appends(s, t, Request::AerialJumpEffect)
        }),
{
    lemma_morph_stages(s, f);
    let d = mb_loop(s, f);
    let e = mb_jump(s, f);
    let t = spec_morphball_crawl(s, f);
    assert(keeps_requests(s, d));
    let n = d.requests.len() as int;
    if s.situation == Situation::Ground {
        lemma_appended_at(s, e, t, n + 1, Request::AddJumpSpeed);
        lemma_appended_at(s, e, t, n + 2, status_request(StatusKind::SamusSpecialAirLw, true));
        lemma_appended_at(s, e, t, n + 4, Request::JumpSmokeEffect);
    } else if s.situation == Situation::Air && f.jumps_used < f.jumps_max {
        lemma_appended_at(s, e, t, n + 1, Request::AddJumpSpeed);
        lemma_appended_at(s, e, t, n + 2, Request::CountJump);
        lemma_appended_at(s, e, t, n + 4, Request::AerialJumpEffect);
    }
}

/// Guard pressed in the morph ball after frame 11 and before 40, with a
/// shinespark stored, ballsparks: the store is spent and the shinespark in
/// use, Samus is airborne, and the shinespark motion runs from frame 18.
/// Without a ballspark the store is left as it was.
pub proof fn law_ballspark(s: SamusState, f: SamusFrame)
    ensures
        ({
            let t = spec_morphball_crawl(s, f);
            let h = f.frame.half_steps();
            let morph = f.motion_kind == MOTION_SPECIAL_LW || f.motion_kind
                == MOTION_SPECIAL_AIR_LW;
            let spark = morph && s.vars.shinespark_timer > 0 && f.guard_pressed && 22 < h < 80;
            let known = s.situation == Situation::Ground || s.situation == Situation::Air;
            &&& spark ==> t.vars.shinespark_timer == 0 && t.vars.shinespark_used
            &&& spark && known ==> t.situation == Situation::Air && appends(
                s,
                t,
                Request::InheritMotionAt { motion: MOTION_SPECIAL_AIR_LW_SHINESPARK, frame: 18 },
            )
            &&& !spark ==> t.vars.shinespark_timer == s.vars.shinespark_timer
                && t.vars.shinespark_used == s.vars.shinespark_used
        }),
{
    if is_morph_motion(f.motion_kind) {
        lemma_morph_stages(s, f);
        let e = mb_jump(s, f);
        let g = morph_ball(s, f);
        let t = spec_morphball_crawl(s, f);
        assert(keeps_requests(s, e)) by {
            lemma_keeps_trans(s, mb_rate(s, f), e);
        }
        if s.vars.shinespark_timer > 0 && f.guard_pressed && f.frame.gt(11) && f.frame.lt(40)
            && (e.situation == Situation::Ground || e.situation == Situation::Air) {
            lemma_appended_at(s, g, t, g.requests.len() - 1, Request::InheritMotionAt { motion: MOTION_SPECIAL_AIR_LW_SHINESPARK, frame: 18 });
        }
    }
}

// The effects' stages: the sparks, then the boost's lines and jets.
spec fn ef_sparks(s: SamusState, f: SamusFrame, spot: Option<i32>) -> SamusState {
    let morph = is_morph_motion(f.motion_kind);
    let stored = s.vars.shinespark_timer > 0;
    if spec_sparks_active(s.vars) && spot is Some {
        let k = spot.unwrap();
        s.emit_if(
            0 <= k < 3,
            Request::ElectricSpark { spot: k, morphball: morph, purple: stored },
        ).emit_if(stored, Request::TintLastEffectPurple)
    } else {
        s
    }
}

spec fn ef_lines(s: SamusState, f: SamusFrame, spot: Option<i32>) -> SamusState {
    let a = ef_sparks(s, f, spot);
    a.emit_if(
        a.vars.shinespark_ready && a.vars.speedline_handle == -1,
        Request::SpawnSpeedLines { morphball: is_morph_motion(f.motion_kind) },
    )
}

/// The speed boost's effects, stated on the frame: boosted, speed lines
/// start when none run, jump jets start once per status outside the morph
/// ball and stop in it; not boosted, running speed lines and jets stop.  A
/// stored shinespark gets its aura when it has none; with none stored a
/// running aura stops.  A rolled spark of a valid spot flies while boosted
/// or stored, purple while stored.  The boost and the store are left as
/// they were.
pub proof fn law_shinespark_effects(s: SamusState, f: SamusFrame, spot: Option<i32>)
    ensures
        ({
            let t = spec_shinespark_effect(s, f, spot);
            let v = s.vars;
            let morph = f.motion_kind == MOTION_SPECIAL_LW || f.motion_kind
                == MOTION_SPECIAL_AIR_LW;
            &&& t.vars.shinespark_ready == v.shinespark_ready
            &&& t.vars.shinespark_timer == v.shinespark_timer
            &&& (v.shinespark_ready || v.shinespark_timer > 0) && spot is Some && 0
                <= spot.unwrap() < 3 ==> appends(
                s,
                t,
                Request::ElectricSpark {
                    spot: spot.unwrap(),
                    morphball: morph,
                    purple: v.shinespark_timer > 0,
                },
            )
            &&& v.shinespark_ready && v.speedline_handle == -1 ==> appends(
                s,
                t,
                Request::SpawnSpeedLines { morphball: morph },
            )
            &&& v.shinespark_ready && !morph && f.status != v.jet_status ==> appends(
                s,
                t,
                Request::SpawnJumpJets,
            ) && t.vars.jet_status == f.status
            &&& v.shinespark_ready && morph ==> t.vars.jet_status == -1
            &&& v.shinespark_ready && morph && v.jet_status != -1 ==> appends(
                s,
                t,
                Request::KillJumpJets,
            )
            &&& !v.shinespark_ready && v.speedline_handle != -1 ==> appends(
                s,
                t,
                Request::KillEffect(v.speedline_handle),
            ) && appends(s, t, Request::KillJumpJets) && t.vars.speedline_handle == -1
                && t.vars.jet_status == -1
            &&& v.shinespark_timer > 0 && v.stored_handle == -1 ==> appends(
                s,
                t,
                Request::SpawnStoredAura,
            )
            &&& v.shinespark_timer == 0 && v.stored_handle != -1 ==> appends(
                s,
                t,
                Request::KillEffect(v.stored_handle),
            ) && t.vars.stored_handle == -1
        }),
{
    let t = spec_shinespark_effect(s, f, spot);
    let a = ef_sparks(s, f, spot);
    let l = ef_lines(s, f, spot);
    let v = s.vars;
    let morph = is_morph_motion(f.motion_kind);
    let j = if f.status != l.vars.jet_status && !morph {
        l.emit(Request::SpawnJumpJets).with_vars(SamusVars { jet_status: f.status, ..l.vars })
    } else {
        l
    };
    let b = if a.vars.shinespark_ready {
        if j.vars.jet_status != -1 && morph {
            j.emit(Request::KillJumpJets).with_vars(SamusVars { jet_status: -1i32, ..j.vars })
        } else {
            j
        }
    } else if a.vars.speedline_handle != -1 {
        a.emit(Request::KillEffect(a.vars.speedline_handle)).emit(Request::KillJumpJets).with_vars(
            SamusVars { speedline_handle: -1i32, jet_status: -1i32, ..a.vars },
        )
    } else {
        a
    };
    lemma_keeps_emit(a, Request::SpawnStoredAura);
    assert(keeps_requests(s, a));
    assert(keeps_requests(a, l));
    assert(keeps_requests(b, t));
    if a.vars.shinespark_ready {
        assert(keeps_requests(l, j));
        assert(keeps_requests(j, b));
        lemma_keeps_trans(j, b, t);
        lemma_keeps_trans(l, j, t);
        lemma_keeps_trans(a, l, t);
    } else {
        assert(keeps_requests(a, b));
        lemma_keeps_trans(a, b, t);
    }
    if spec_sparks_active(v) && spot is Some && 0 <= spot.unwrap() < 3 {
        lemma_appended_at(s, a, t, s.requests.len() as int, Request::ElectricSpark {
            spot: spot.unwrap(),
            morphball: morph,
            purple: v.shinespark_timer > 0,
        });
    }
    if v.shinespark_ready && v.speedline_handle == -1 {
        lemma_appended_at(s, l, t, l.requests.len() - 1, Request::SpawnSpeedLines { morphball: morph });
    }
    if v.shinespark_ready && !morph && f.status != v.jet_status {
        lemma_appended_at(s, j, t, j.requests.len() - 1, Request::SpawnJumpJets);
    }
    if v.shinespark_ready && morph && v.jet_status != -1 {
        lemma_appended_at(s, b, t, b.requests.len() - 1, Request::KillJumpJets);
    }
    if !v.shinespark_ready && v.speedline_handle != -1 {
        lemma_appended_at(s, b, t, b.requests.len() - 2, Request::KillEffect(v.speedline_handle));
        lemma_appended_at(s, b, t, b.requests.len() - 1, Request::KillJumpJets);
    }
    if v.shinespark_timer > 0 && v.stored_handle == -1 {
        lemma_appended_at(s, t, t, t.requests.len() - 1, Request::SpawnStoredAura);
    }
    if v.shinespark_timer == 0 && v.stored_handle != -1 {
        lemma_appended_at(s, t, t, t.requests.len() - 1, Request::KillEffect(v.stored_handle));
    }
}

/// A frame's moves aim the gun for Samus's situation; they switch to super
/// missiles when attack is held early in the charge shot's start; and mid
/// chain they cancel an attack into flashshift on a side special input.
pub proof fn law_moveset_aims_and_cancels(s: SamusState, f: SamusFrame)
    ensures
        ({
            let m = spec_moveset(s, f);
            let st = f.status_kind;
            let attack = st == StatusKind::Attack || st == StatusKind::AttackDash || st
                == StatusKind::AttackS3 || st == StatusKind::AttackLw3 || st
                == StatusKind::AttackHi3 || st == StatusKind::AttackS4 || st
                == StatusKind::AttackLw4 || st == StatusKind::AttackHi4 || st
                == StatusKind::AttackAir;
            let to = if s.situation == Situation::Ground {
                StatusKind::SamusSpecialS2G
            } else {
                StatusKind::SamusSpecialS2A
            };
            &&& appends(s, m, Request::AimGun(spec_aim_gun(s.situation, f)))
            &&& st == StatusKind::SpecialN && f.frame.half_steps() <= 12 && f.attack_held
                ==> appends(s, m, Request::ChangeStatusReq { status: to, clear_buffer: false })
            &&& s.vars.flashshift_chain_timer >= 2 && s.vars.flashshift_chain_count < 3
                && f.special_s_command && attack ==> appends(
                s,
                m,
                Request::ChangeStatus { status: StatusKind::SpecialS, clear_buffer: false },
            )
        }),
{
    let m = spec_moveset(s, f);
    let a = spec_change_missiles(s, f);
    let b = a.emit(Request::AimGun(spec_aim_gun(a.situation, f)));
    let c = spec_flashshift(b, f);
    let d = spec_shinespark_charge(c, f);
    let e = spec_shinespark_reset(d, f);
    let g = spec_shinespark_storage(e, f);
    lemma_keeps_change_missiles(s, f);
    lemma_keeps_emit(a, Request::AimGun(spec_aim_gun(a.situation, f)));
    lemma_keeps_flashshift(b, f);
    lemma_keeps_shinespark_charge(c, f);
    lemma_keeps_shinespark_reset(d, f);
    lemma_keeps_shinespark_storage(e, f);
    lemma_keeps_shinespark_air(g, f);
    lemma_keeps_trans(e, g, m);
    lemma_keeps_trans(d, e, m);
    lemma_keeps_trans(c, d, m);
    lemma_keeps_trans(b, c, m);
    lemma_keeps_trans(a, b, m);
    lemma_appended_at(s, b, m, b.requests.len() - 1, Request::AimGun(spec_aim_gun(s.situation, f)));
    law_change_to_super_missiles(s, f);
    if f.status_kind == StatusKind::SpecialN && f.frame.half_steps() <= 12 && f.attack_held {
        lemma_appended_at(s, a, m, a.requests.len() - 1, a.requests.last());
    }
    law_flashshift_chain_cancel(b, f);
    if b.vars.flashshift_chain_timer >= 2 && b.vars.flashshift_chain_count < 3
        && f.special_s_command && is_flashshift_cancelable(f.status_kind) {
        lemma_appended_at(s, c, m, c.requests.len() - 1, c.requests.last());
    }
}

/// The frame's common part lands a missile that touches down from the air,
/// loops the morph ball from frame 38 to 40 outside a bomb jump, and resets
/// the charge shot's air dodge cancel in the air.
pub proof fn law_common_frame(s: SamusState, f: SamusFrame)
    ensures
        ({
            let t = spec_common_samus(s, f);
            let st = f.status_kind;
            let missile = st == StatusKind::SpecialS || st == StatusKind::SamusSpecialS1G || st
                == StatusKind::SamusSpecialS1A || st == StatusKind::SamusSpecialS2G || st
                == StatusKind::SamusSpecialS2A;
            let h = f.frame.half_steps();
            &&& missile && f.situation_kind == Situation::Ground && f.prev_situation_kind
                == Situation::Air ==> appends(
                s,
                t,
                Request::ChangeStatusFromScript { status: StatusKind::Landing, clear_buffer: false },
            )
            &&& (f.motion_kind == MOTION_SPECIAL_LW || f.motion_kind == MOTION_SPECIAL_AIR_LW) && 76
                <= h < 80 && st != StatusKind::SamusBombJumpG && st != StatusKind::SamusBombJumpA
                ==> appends(s, t, Request::InheritMotionAt { motion: MOTION_SPECIAL_LW, frame: 20 })
            &&& st == StatusKind::SamusSpecialNC && f.situation_kind == Situation::Air
                && f.cancel_type_air_escape ==> appends(s, t, Request::ResetCancelType)
        }),
{
    let t = spec_common_samus(s, f);
    let a = spec_missile_land_cancel(s, f);
    let b = spec_morphball_crawl(a, f);
    lemma_keeps_missile_land_cancel(s, f);
    lemma_keeps_morphball_crawl(a, f);
    lemma_keeps_nspecial_cancels(b, f);
    lemma_keeps_trans(a, b, t);
    if a.requests.len() > s.requests.len() {
        lemma_appended_at(s, a, t, a.requests.len() - 1, a.requests.last());
    }
    if is_morph_motion(f.motion_kind) && f.frame.ge(38) && f.frame.lt(40) && f.status_kind
        != StatusKind::SamusBombJumpG && f.status_kind != StatusKind::SamusBombJumpA {
        law_morph_ball_loops(a, f);
        let r = Request::InheritMotionAt { motion: MOTION_SPECIAL_LW, frame: 20 };
        let k = choose|k: int| a.requests.len() <= k < b.requests.len() && b.requests[k] == r;
        lemma_appended_at(s, b, t, k, r);
    }
    if b.requests.len() < t.requests.len() {
        lemma_appended_at(s, t, t, t.requests.len() - 1, t.requests.last());
    }
}

} // verus!
