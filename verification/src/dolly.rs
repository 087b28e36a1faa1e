//! Terry's per-frame move logic: super and special cancels, the magic
//! series of attack cancels, and the super meter.
//!
//! Each function reads one `DollyFrame` (what the game reports of the
//! fighter this frame) and works on a `DollyCtx`: the requests it makes of
//! the game, appended in the order they are made; the fighter's variables;
//! the enable-super-special work flag as it stands; and whether the command
//! buffer was cleared this frame (after a clear, no command input reads as
//! given).
use vstd::prelude::*;
use crate::common::{FrameTime, Situation, StatusKind, MOTION_ATTACK_13, MOTION_ATTACK_S3_S,
    MOTION_ATTACK_LW3, MOTION_ATTACK_AIR_N, MOTION_ATTACK_AIR_F, MOTION_ATTACK_AIR_HI,
    MOTION_ATTACK_AIR_LW, MOTION_SPECIAL_AIR_F_START, MOTION_SUPER_SPECIAL2_BLOW};

verus! {

/// The command inputs that the logic asks about through the command buffer.
#[derive(Clone, Copy, Debug, PartialEq, Eq, Structural)]
pub enum Command {
    Dash,
    AttackS3,
    AttackHi3,
    AttackLw3,
    AttackS4,
    AttackHi4,
    AttackLw4,
    SpecialN,
    SpecialS,
    SpecialHi,
    SpecialLw,
    /// Half-circle forward: Power Charge and Triple Geyser.
    SpecialN2Command,
    /// Quarter-circle forward: command Burn Knuckle.
    SpecialNCommand,
    /// Quarter-circle back: command Crack Shoot.
    SpecialSCommand,
    /// Down-up charge: command Rising Tackle.
    SpecialHi2Command,
    /// Down-down: command Power Dunk.
    SpecialHiCommand,
    /// A jump input.
    Jump,
}

/// The command buffer as it stood at the start of the frame.
#[derive(Clone, Copy, Debug, PartialEq, Eq, Structural)]
pub struct Commands {
    pub dash: bool,
    pub attack_s3: bool,
    pub attack_hi3: bool,
    pub attack_lw3: bool,
    pub attack_s4: bool,
    pub attack_hi4: bool,
    pub attack_lw4: bool,
    pub special_n: bool,
    pub special_s: bool,
    pub special_hi: bool,
    pub special_lw: bool,
    pub special_n2_command: bool,
    pub special_n_command: bool,
    pub special_s_command: bool,
    pub special_hi2_command: bool,
    pub special_hi_command: bool,
    pub jump: bool,
}

impl Commands {
    pub open spec fn has(self, c: Command) -> bool {
        match c {
            Command::Dash => self.dash,
            Command::AttackS3 => self.attack_s3,
            Command::AttackHi3 => self.attack_hi3,
            Command::AttackLw3 => self.attack_lw3,
            Command::AttackS4 => self.attack_s4,
            Command::AttackHi4 => self.attack_hi4,
            Command::AttackLw4 => self.attack_lw4,
            Command::SpecialN => self.special_n,
            Command::SpecialS => self.special_s,
            Command::SpecialHi => self.special_hi,
            Command::SpecialLw => self.special_lw,
            Command::SpecialN2Command => self.special_n2_command,
            Command::SpecialNCommand => self.special_n_command,
            Command::SpecialSCommand => self.special_s_command,
            Command::SpecialHi2Command => self.special_hi2_command,
            Command::SpecialHiCommand => self.special_hi_command,
            Command::Jump => self.jump,
        }
    }

    pub fn get(&self, c: Command) -> (r: bool)
        ensures
            r == self.has(c),
    {
        match c {
            Command::Dash => self.dash,
            Command::AttackS3 => self.attack_s3,
            Command::AttackHi3 => self.attack_hi3,
            Command::AttackLw3 => self.attack_lw3,
            Command::AttackS4 => self.attack_s4,
            Command::AttackHi4 => self.attack_hi4,
            Command::AttackLw4 => self.attack_lw4,
            Command::SpecialN => self.special_n,
            Command::SpecialS => self.special_s,
            Command::SpecialHi => self.special_hi,
            Command::SpecialLw => self.special_lw,
            Command::SpecialN2Command => self.special_n2_command,
            Command::SpecialNCommand => self.special_n_command,
            Command::SpecialSCommand => self.special_s_command,
            Command::SpecialHi2Command => self.special_hi2_command,
            Command::SpecialHiCommand => self.special_hi_command,
            Command::Jump => self.jump,
        }
    }
}

/// What the game reports of the fighter this frame.
#[derive(Clone, Copy, Debug, PartialEq, Eq, Structural)]
pub struct DollyFrame {
    pub status_kind: StatusKind,
    /// The status before the current one.
    pub prev_status_kind: StatusKind,
    pub situation_kind: Situation,
    pub prev_situation_kind: Situation,
    pub motion_kind: u64,
    pub frame: FrameTime,
    /// The command buffer, read through as the frame goes on.
    pub commands: Commands,
    /// The fourth command category, as read at the start of the frame,
    /// holds a Buster Wolf input (either direction).
    pub super_special_command: bool,
    /// The fourth command category holds a Power Geyser input.
    pub super_special2_command: bool,
    /// The first command category holds an up tilt or up smash input.
    pub attack_hi_command: bool,
    /// The first command category holds a down tilt or down smash input.
    pub attack_lw_command: bool,
    pub stick_forward: bool,
    pub stick_backward: bool,
    /// The current attack has hit a target.
    pub hit: bool,
    /// The current attack has hit a shield.
    pub shield_hit: bool,
    /// The super meter's level.
    pub meter_level: i32,
    pub training_mode: bool,
    /// The guard button is held.
    pub guard_held: bool,
    /// The guard button was pressed this frame.
    pub guard_pressed: bool,
    /// The pad flags show a guard trigger.
    pub guard_trigger: bool,
    /// The grab button is up.
    pub catch_released: bool,
    /// The fighter stands on ground that can be dropped through.
    pub passable_ground: bool,
    /// The stick was flicked down past the flick sensitivity.
    pub flick_down: bool,
}

/// The fighter's own variables that this logic reads or writes.
#[derive(Clone, Copy, Debug, PartialEq, Eq, Structural)]
pub struct DollyVars {
    pub repeat_incremented: bool,
    pub air_special_used: bool,
    pub super_cancel: bool,
    pub magic_series_cancel: bool,
    pub magic_cancel_additional: bool,
}

/// Transition terms that the logic enables.
#[derive(Clone, Copy, Debug, PartialEq, Eq, Structural)]
pub enum Term {
    ContSuperSpecial,
    ContSuperSpecial2,
    Final,
    ContSpecialSCommand,
    ContSpecialHiCommand,
    ContSpecialLwCommand,
}

/// Work flags of the fighter instance that the logic sets.
#[derive(Clone, Copy, Debug, PartialEq, Eq, Structural)]
pub enum WorkFlag {
    EnableSuperSpecial,
    Final,
    IsDiscretionFinalUsed,
}

/// A request to the game.
#[derive(Clone, Copy, Debug, PartialEq, Eq, Structural)]
pub enum Request {
    /// Request a change of status from script.
    ChangeStatus { status: StatusKind, clear_buffer: bool },
    EnableTerm(Term),
    WorkFlagOn(WorkFlag),
    WorkFlagOff(WorkFlag),
    /// Clear the command buffer.
    ClearCommand,
    /// Add the full meter's worth of damage to the meter.
    AddFullMeter,
}

/// The frame's work as a value: the requests made so far, in order, and the
/// state that the logic reads back.
#[verifier::ext_equal]
pub struct DollyState {
    pub requests: Seq<Request>,
    pub vars: DollyVars,
    pub super_special_enabled: bool,
    pub commands_cleared: bool,
}

impl DollyState {
    pub open spec fn emit(self, r: Request) -> DollyState {
        DollyState { requests: self.requests.push(r), ..self }
    }

    pub open spec fn emit_if(self, c: bool, r: Request) -> DollyState {
        if c {
            self.emit(r)
        } else {
            self
        }
    }

    pub open spec fn with_vars(self, vars: DollyVars) -> DollyState {
        DollyState { vars, ..self }
    }

    /// Clear the command buffer: the request, and no command reads as given
    /// for the rest of the frame.
    pub open spec fn clear_commands(self) -> DollyState {
        DollyState { commands_cleared: true, ..self.emit(Request::ClearCommand) }
    }

    /// Whether command `c` reads as given now.
    pub open spec fn command(self, f: DollyFrame, c: Command) -> bool {
        !self.commands_cleared && f.commands.has(c)
    }

    /// Mark the current cancel as part of a magic series.
    pub open spec fn mark_magic_series(self) -> DollyState {
        self.with_vars(DollyVars { magic_series_cancel: true, ..self.vars })
    }
}

/// A change of status from script.
pub open spec fn to_status(status: StatusKind, clear_buffer: bool) -> Request {
    Request::ChangeStatus { status, clear_buffer }
}

/// The frame's work: the requests made so far and the state read back.
pub struct DollyCtx {
    pub requests: Vec<Request>,
    pub vars: DollyVars,
    pub super_special_enabled: bool,
    pub commands_cleared: bool,
}

impl View for DollyCtx {
    type V = DollyState;

    open spec fn view(&self) -> DollyState {
        DollyState {
            requests: self.requests@,
            vars: self.vars,
            super_special_enabled: self.super_special_enabled,
            commands_cleared: self.commands_cleared,
        }
    }
}

impl DollyCtx {
    /// A frame's start: no requests yet, the variables and the
    /// enable-super-special flag as the game holds them, the command buffer
    /// not cleared.
    pub fn new(vars: DollyVars, super_special_enabled: bool) -> (r: DollyCtx)
        ensures
            r@ == (DollyState {
                requests: Seq::empty(),
                vars,
                super_special_enabled,
                commands_cleared: false,
            }),
    {
        DollyCtx { requests: Vec::new(), vars, super_special_enabled, commands_cleared: false }
    }

    fn emit(&mut self, r: Request)
        ensures
            final(self)@ == old(self)@.emit(r),
    {
        self.requests.push(r);
    }

    fn emit_if(&mut self, c: bool, r: Request)
        ensures
            final(self)@ == old(self)@.emit_if(c, r),
    {
        if c {
            self.requests.push(r);
        }
    }

    fn clear_commands(&mut self)
        ensures
            final(self)@ == old(self)@.clear_commands(),
    {
        self.requests.push(Request::ClearCommand);
        self.commands_cleared = true;
    }

    fn command(&self, f: &DollyFrame, c: Command) -> (r: bool)
        ensures
            r == self@.command(*f, c),
    {
        !self.commands_cleared && f.commands.get(c)
    }

    fn mark_magic_series(&mut self)
        ensures
            final(self)@ == old(self)@.mark_magic_series(),
    {
        self.vars.magic_series_cancel = true;
    }
}

// ---------------------------------------------------------------------------
// Status groups
// ---------------------------------------------------------------------------
/// Terry's three super statuses.
pub open spec fn is_super_status(s: StatusKind) -> bool {
    match s {
        StatusKind::DollySuperSpecial | StatusKind::DollySuperSpecial2
        | StatusKind::DollySuperSpecial2Blow => true,
        _ => false,
    }
}

fn super_status(s: StatusKind) -> (r: bool)
    ensures
        r == is_super_status(s),
{
    match s {
        StatusKind::DollySuperSpecial | StatusKind::DollySuperSpecial2
        | StatusKind::DollySuperSpecial2Blow => true,
        _ => false,
    }
}

/// The special statuses that special and super cancels start from.
pub open spec fn is_special_status(s: StatusKind) -> bool {
    match s {
        StatusKind::SpecialS | StatusKind::DollySpecialSCommand | StatusKind::DollySpecialFAttack
        | StatusKind::DollySpecialB | StatusKind::DollySpecialBCommand
        | StatusKind::DollySpecialBAttack | StatusKind::SpecialHi
        | StatusKind::DollySpecialHiCommand | StatusKind::DollySpecialHiJump
        | StatusKind::SpecialLw | StatusKind::DollySpecialLwCommand
        | StatusKind::DollySpecialLwAttack => true,
        _ => false,
    }
}

fn special_status(s: StatusKind) -> (r: bool)
    ensures
        r == is_special_status(s),
{
    match s {
        StatusKind::SpecialS | StatusKind::DollySpecialSCommand | StatusKind::DollySpecialFAttack
        | StatusKind::DollySpecialB | StatusKind::DollySpecialBCommand
        | StatusKind::DollySpecialBAttack | StatusKind::SpecialHi
        | StatusKind::DollySpecialHiCommand | StatusKind::DollySpecialHiJump
        | StatusKind::SpecialLw | StatusKind::DollySpecialLwCommand
        | StatusKind::DollySpecialLwAttack => true,
        _ => false,
    }
}

/// Burn Knuckle's statuses.
pub open spec fn is_burn_knuckle(s: StatusKind) -> bool {
    match s {
        StatusKind::SpecialS | StatusKind::DollySpecialSCommand
        | StatusKind::DollySpecialFAttack => true,
        _ => false,
    }
}

fn burn_knuckle(s: StatusKind) -> (r: bool)
    ensures
        r == is_burn_knuckle(s),
{
    match s {
        StatusKind::SpecialS | StatusKind::DollySpecialSCommand
        | StatusKind::DollySpecialFAttack => true,
        _ => false,
    }
}

/// Rising Tackle's statuses.
pub open spec fn is_rising_tackle(s: StatusKind) -> bool {
    match s {
        StatusKind::SpecialHi | StatusKind::DollySpecialHiCommand
        | StatusKind::DollySpecialHiJump => true,
        _ => false,
    }
}

fn rising_tackle(s: StatusKind) -> (r: bool)
    ensures
        r == is_rising_tackle(s),
{
    match s {
        StatusKind::SpecialHi | StatusKind::DollySpecialHiCommand
        | StatusKind::DollySpecialHiJump => true,
        _ => false,
    }
}

/// The tilt attacks.
pub open spec fn is_tilt(s: StatusKind) -> bool {
    match s {
        StatusKind::AttackS3 | StatusKind::AttackHi3 | StatusKind::AttackLw3 => true,
        _ => false,
    }
}

fn tilt(s: StatusKind) -> (r: bool)
    ensures
        r == is_tilt(s),
{
    match s {
        StatusKind::AttackS3 | StatusKind::AttackHi3 | StatusKind::AttackLw3 => true,
        _ => false,
    }
}

/// The smash attacks.
pub open spec fn is_smash(s: StatusKind) -> bool {
    match s {
        StatusKind::AttackS4 | StatusKind::AttackHi4 | StatusKind::AttackLw4 => true,
        _ => false,
    }
}

fn smash_attack(s: StatusKind) -> (r: bool)
    ensures
        r == is_smash(s),
{
    match s {
        StatusKind::AttackS4 | StatusKind::AttackHi4 | StatusKind::AttackLw4 => true,
        _ => false,
    }
}

/// The attack connected, with a target or a shield.
pub open spec fn connected(f: DollyFrame) -> bool {
    f.hit || f.shield_hit
}

/// Triple Geyser: the final flags, then the final status.
pub open spec fn triple_geyser(s: DollyState) -> DollyState {
    s.emit(Request::WorkFlagOn(WorkFlag::Final)).emit(
        Request::WorkFlagOn(WorkFlag::IsDiscretionFinalUsed),
    ).emit(to_status(StatusKind::Final, true))
}

impl DollyCtx {
    fn triple_geyser(&mut self)
        ensures
            final(self)@ == triple_geyser(old(self)@),
    {
        self.emit(Request::WorkFlagOn(WorkFlag::Final));
        self.emit(Request::WorkFlagOn(WorkFlag::IsDiscretionFinalUsed));
        self.emit(Request::ChangeStatus { status: StatusKind::Final, clear_buffer: true });
    }
}

// ---------------------------------------------------------------------------
// Down tilt repeat
// ---------------------------------------------------------------------------
/// A down tilt that hits marks its repeat as counted.
pub open spec fn spec_dtilt_repeat_increment(s: DollyState, f: DollyFrame) -> DollyState {
    if f.motion_kind == MOTION_ATTACK_LW3 && f.hit && !s.vars.repeat_incremented {
        s.with_vars(DollyVars { repeat_incremented: true, ..s.vars })
    } else {
        s
    }
}

pub fn dtilt_repeat_increment(ctx: &mut DollyCtx, f: &DollyFrame)
    ensures
        final(ctx)@ == spec_dtilt_repeat_increment(old(ctx)@, *f),
{
    if f.motion_kind == MOTION_ATTACK_LW3 && f.hit && !ctx.vars.repeat_incremented {
        ctx.vars.repeat_incremented = true;
    }
}

// ---------------------------------------------------------------------------
// Power Wave
// ---------------------------------------------------------------------------
/// Power Wave: after frame 21 it cancels into either super while supers are
/// enabled; with a full meter, Power Charge's input goes into Triple Geyser;
/// on the ground a dash cancels it after frame 36 when it followed a forward
/// tilt, else after frame 33.
pub open spec fn spec_power_wave_dash_cancel_super_cancels(s: DollyState, f: DollyFrame) -> DollyState {
    if f.status_kind != StatusKind::SpecialN {
        s
    } else {
        let s1 = if f.frame.gt(21) && s.super_special_enabled {
            s.emit(Request::EnableTerm(Term::ContSuperSpecial)).emit(
                Request::EnableTerm(Term::ContSuperSpecial2),
            ).emit_if(
                f.super_special_command,
                to_status(StatusKind::DollySuperSpecial, false),
            ).emit_if(f.super_special2_command, to_status(StatusKind::DollySuperSpecial2, false))
        } else {
            s
        };
        let s2 = if f.meter_level >= 10 && s1.command(f, Command::SpecialN2Command) {
            triple_geyser(s1)
        } else {
            s1
        };
        let dash_from = if f.prev_status_kind == StatusKind::AttackS3 {
            36int
        } else {
            33int
        };
        s2.emit_if(
            f.frame.gt(dash_from) && f.situation_kind == Situation::Ground && s2.command(
                f,
                Command::Dash,
            ),
            to_status(StatusKind::Dash, false),
        )
    }
}

pub fn power_wave_dash_cancel_super_cancels(ctx: &mut DollyCtx, f: &DollyFrame)
    ensures
        final(ctx)@ == spec_power_wave_dash_cancel_super_cancels(old(ctx)@, *f),
{
    if f.status_kind != StatusKind::SpecialN {
        return ;
    }
    if f.frame.is_gt(21) && ctx.super_special_enabled {
        ctx.emit(Request::EnableTerm(Term::ContSuperSpecial));
        ctx.emit(Request::EnableTerm(Term::ContSuperSpecial2));
        ctx.emit_if(
            f.super_special_command,
            Request::ChangeStatus { status: StatusKind::DollySuperSpecial, clear_buffer: false },
        );
        ctx.emit_if(
            f.super_special2_command,
            Request::ChangeStatus { status: StatusKind::DollySuperSpecial2, clear_buffer: false },
        );
    }
    if f.meter_level >= 10 && ctx.command(f, Command::SpecialN2Command) {
        ctx.triple_geyser();
    }
    let dash_from: i32 = if f.prev_status_kind == StatusKind::AttackS3 {
        36
    } else {
        33
    };
    let dash = f.frame.is_gt(dash_from) && f.situation_kind == Situation::Ground && ctx.command(
        f,
        Command::Dash,
    );
    ctx.emit_if(dash, Request::ChangeStatus { status: StatusKind::Dash, clear_buffer: false });
}


// ---------------------------------------------------------------------------
// Triple Geyser out of specials and supers
// ---------------------------------------------------------------------------
/// With a full meter, dash attack and every special go into Triple Geyser on
/// Power Charge's input; Power Geyser's blow does so with six levels of meter,
/// and enables the final's transition term whenever it has them.
pub open spec fn spec_special_super_cancels_triple_geyser(s: DollyState, f: DollyFrame) -> DollyState {
    let s1 = if (f.status_kind == StatusKind::AttackDash || is_special_status(f.status_kind))
        && f.meter_level >= 10 && s.command(f, Command::SpecialN2Command) {
        triple_geyser(s.emit(Request::EnableTerm(Term::Final)))
    } else {
        s
    };
    if is_super_status(f.status_kind) && f.motion_kind == MOTION_SUPER_SPECIAL2_BLOW
        && f.meter_level >= 6 {
        let s2 = s1.emit(Request::EnableTerm(Term::Final));
        if s2.command(f, Command::SpecialN2Command) {
            triple_geyser(s2)
        } else {
            s2
        }
    } else {
        s1
    }
}

pub fn special_super_cancels_triple_geyser(ctx: &mut DollyCtx, f: &DollyFrame)
    ensures
        final(ctx)@ == spec_special_super_cancels_triple_geyser(old(ctx)@, *f),
{
    if (f.status_kind == StatusKind::AttackDash || special_status(f.status_kind))
        && f.meter_level >= 10 && ctx.command(f, Command::SpecialN2Command) {
        ctx.emit(Request::EnableTerm(Term::Final));
        ctx.triple_geyser();
    }
    if super_status(f.status_kind) && f.motion_kind == MOTION_SUPER_SPECIAL2_BLOW
        && f.meter_level >= 6 {
        ctx.emit(Request::EnableTerm(Term::Final));
        if ctx.command(f, Command::SpecialN2Command) {
            ctx.triple_geyser();
        }
    }
}

// ---------------------------------------------------------------------------
// Burn Knuckle land cancel
// ---------------------------------------------------------------------------
/// An aerial Burn Knuckle start marks the air special as used; once it is
/// marked, Burn Knuckle's end or attack lands on touching the ground from the
/// air.
pub open spec fn spec_burn_knuckle_land_cancel(s: DollyState, f: DollyFrame) -> DollyState {
    let s1 = if f.motion_kind == MOTION_SPECIAL_AIR_F_START && f.situation_kind == Situation::Air {
        s.with_vars(DollyVars { air_special_used: true, ..s.vars })
    } else {
        s
    };
    s1.emit_if(
        s1.vars.air_special_used && (f.status_kind == StatusKind::DollySpecialFEnd
            || f.status_kind == StatusKind::DollySpecialFAttack) && f.situation_kind
            == Situation::Ground && f.prev_situation_kind == Situation::Air,
        to_status(StatusKind::Landing, false),
    )
}

pub fn burn_knuckle_land_cancel(ctx: &mut DollyCtx, f: &DollyFrame)
    ensures
        final(ctx)@ == spec_burn_knuckle_land_cancel(old(ctx)@, *f),
{
    if f.motion_kind == MOTION_SPECIAL_AIR_F_START && f.situation_kind == Situation::Air {
        ctx.vars.air_special_used = true;
    }
    let land = ctx.vars.air_special_used && (f.status_kind == StatusKind::DollySpecialFEnd
        || f.status_kind == StatusKind::DollySpecialFAttack) && f.situation_kind
        == Situation::Ground && f.prev_situation_kind == Situation::Air;
    ctx.emit_if(land, Request::ChangeStatus { status: StatusKind::Landing, clear_buffer: false });
}

// ---------------------------------------------------------------------------
// Super meter
// ---------------------------------------------------------------------------
/// Supers are enabled exactly when the meter has four levels.
pub open spec fn spec_super_special_meter_activation(s: DollyState, f: DollyFrame) -> DollyState {
    if f.meter_level >= 4 {
        DollyState {
            super_special_enabled: true,
            ..s.emit(Request::WorkFlagOn(WorkFlag::EnableSuperSpecial))
        }
    } else {
        DollyState {
            super_special_enabled: false,
            ..s.emit(Request::WorkFlagOff(WorkFlag::EnableSuperSpecial))
        }
    }
}

pub fn super_special_meter_activation(ctx: &mut DollyCtx, f: &DollyFrame)
    ensures
        final(ctx)@ == spec_super_special_meter_activation(old(ctx)@, *f),
{
    if f.meter_level >= 4 {
        ctx.emit(Request::WorkFlagOn(WorkFlag::EnableSuperSpecial));
        ctx.super_special_enabled = true;
    }
    if f.meter_level < 4 {
        ctx.emit(Request::WorkFlagOff(WorkFlag::EnableSuperSpecial));
        ctx.super_special_enabled = false;
    }
}

// ---------------------------------------------------------------------------
// Early super cancel
// ---------------------------------------------------------------------------
/// Before frame 25 of Buster Wolf or Power Geyser on the ground, pressing
/// guard ends it into Burn Knuckle's end.
pub open spec fn spec_cancel_supers_early(s: DollyState, f: DollyFrame) -> DollyState {
    s.emit_if(
        (f.status_kind == StatusKind::DollySuperSpecial || f.status_kind
            == StatusKind::DollySuperSpecial2) && f.frame.lt(25) && f.guard_pressed
            && f.situation_kind == Situation::Ground,
        to_status(StatusKind::DollySpecialFEnd, false),
    )
}

pub fn cancel_supers_early(ctx: &mut DollyCtx, f: &DollyFrame)
    ensures
        final(ctx)@ == spec_cancel_supers_early(old(ctx)@, *f),
{
    let cancel = (f.status_kind == StatusKind::DollySuperSpecial || f.status_kind
        == StatusKind::DollySuperSpecial2) && f.frame.is_lt(25) && f.guard_pressed
        && f.situation_kind == Situation::Ground;
    ctx.emit_if(
        cancel,
        Request::ChangeStatus { status: StatusKind::DollySpecialFEnd, clear_buffer: false },
    );
}

// ---------------------------------------------------------------------------
// Super cancels
// ---------------------------------------------------------------------------
/// With two levels of meter, Buster Wolf cancels into Power Geyser, and Power
/// Geyser (or its blow) into Buster Wolf; a cancel marks the super cancel.
pub open spec fn spec_super_cancels(s: DollyState, f: DollyFrame) -> DollyState {
    let s1 = if f.status_kind == StatusKind::DollySuperSpecial && f.meter_level >= 2 {
        let t = s.emit(Request::EnableTerm(Term::ContSuperSpecial2));
        if f.super_special2_command {
            t.with_vars(DollyVars { super_cancel: true, ..t.vars }).emit(
                to_status(StatusKind::DollySuperSpecial2, false),
            )
        } else {
            t
        }
    } else {
        s
    };
    if (f.status_kind == StatusKind::DollySuperSpecial2 || f.status_kind
        == StatusKind::DollySuperSpecial2Blow || f.motion_kind == MOTION_SUPER_SPECIAL2_BLOW)
        && f.meter_level >= 2 {
        let t = s1.emit(Request::EnableTerm(Term::ContSuperSpecial));
        if f.super_special_command {
            t.with_vars(DollyVars { super_cancel: true, ..t.vars }).emit(
                to_status(StatusKind::DollySuperSpecial, false),
            )
        } else {
            t
        }
    } else {
        s1
    }
}

pub fn super_cancels(ctx: &mut DollyCtx, f: &DollyFrame)
    ensures
        final(ctx)@ == spec_super_cancels(old(ctx)@, *f),
{
    if f.status_kind == StatusKind::DollySuperSpecial && f.meter_level >= 2 {
        ctx.emit(Request::EnableTerm(Term::ContSuperSpecial2));
        if f.super_special2_command {
            ctx.vars.super_cancel = true;
            ctx.emit(
                Request::ChangeStatus {
                    status: StatusKind::DollySuperSpecial2,
                    clear_buffer: false,
                },
            );
        }
    }
    if (f.status_kind == StatusKind::DollySuperSpecial2 || f.status_kind
        == StatusKind::DollySuperSpecial2Blow || f.motion_kind == MOTION_SUPER_SPECIAL2_BLOW)
        && f.meter_level >= 2 {
        ctx.emit(Request::EnableTerm(Term::ContSuperSpecial));
        if f.super_special_command {
            ctx.vars.super_cancel = true;
            ctx.emit(
                Request::ChangeStatus { status: StatusKind::DollySuperSpecial, clear_buffer: false },
            );
        }
    }
}

/// Outside the supers, the super cancel mark is off.
pub open spec fn spec_super_cancel_flag_off(s: DollyState, f: DollyFrame) -> DollyState {
    if !is_super_status(f.status_kind) {
        s.with_vars(DollyVars { super_cancel: false, ..s.vars })
    } else {
        s
    }
}

pub fn super_cancel_flag_off(ctx: &mut DollyCtx, f: &DollyFrame)
    ensures
        final(ctx)@ == spec_super_cancel_flag_off(old(ctx)@, *f),
{
    if !super_status(f.status_kind) {
        ctx.vars.super_cancel = false;
    }
}

// ---------------------------------------------------------------------------
// Shield stop and run drop
// ---------------------------------------------------------------------------
/// A guard trigger with the grab button up, while dashing on the ground,
/// shields (clearing the command buffer); on ground that can be dropped
/// through, a flick down then drops through it.
pub open spec fn spec_shield_stop_run_drop(s: DollyState, f: DollyFrame) -> DollyState {
    if f.guard_trigger && f.catch_released && f.situation_kind == Situation::Ground && (
    f.status_kind == StatusKind::Dash || f.status_kind == StatusKind::DollyDashBack) {
        s.emit(to_status(StatusKind::GuardOn, true)).clear_commands().emit_if(
            f.passable_ground && f.flick_down,
            to_status(StatusKind::Pass, true),
        )
    } else {
        s
    }
}

pub fn shield_stop_run_drop(ctx: &mut DollyCtx, f: &DollyFrame)
    ensures
        final(ctx)@ == spec_shield_stop_run_drop(old(ctx)@, *f),
{
    if f.guard_trigger && f.catch_released && f.situation_kind == Situation::Ground && (
    f.status_kind == StatusKind::Dash || f.status_kind == StatusKind::DollyDashBack) {
        ctx.emit(Request::ChangeStatus { status: StatusKind::GuardOn, clear_buffer: true });
        ctx.clear_commands();
        ctx.emit_if(
            f.passable_ground && f.flick_down,
            Request::ChangeStatus { status: StatusKind::Pass, clear_buffer: true },
        );
    }
}

// ---------------------------------------------------------------------------
// Training mode meter
// ---------------------------------------------------------------------------
/// In training mode, holding guard during a taunt fills the meter.
pub open spec fn spec_full_meter_training_taunt(s: DollyState, f: DollyFrame) -> DollyState {
    s.emit_if(
        f.training_mode && f.status_kind == StatusKind::Appeal && f.guard_held,
        Request::AddFullMeter,
    )
}

pub fn full_meter_training_taunt(ctx: &mut DollyCtx, f: &DollyFrame)
    ensures
        final(ctx)@ == spec_full_meter_training_taunt(old(ctx)@, *f),
{
    ctx.emit_if(
        f.training_mode && f.status_kind == StatusKind::Appeal && f.guard_held,
        Request::AddFullMeter,
    );
}


// ---------------------------------------------------------------------------
// Magic series
// ---------------------------------------------------------------------------
/// A cancel into `status` on command `c`.
pub open spec fn cancel_on(s: DollyState, f: DollyFrame, c: Command, status: StatusKind) -> DollyState {
    s.emit_if(s.command(f, c), to_status(status, false))
}

/// A magic series cancel into `status` on command `c`: marked as such, then
/// requested.
pub open spec fn magic_cancel_on(
    s: DollyState,
    f: DollyFrame,
    c: Command,
    status: StatusKind,
    clear_buffer: bool,
) -> DollyState {
    if s.command(f, c) {
        s.mark_magic_series().emit(to_status(status, clear_buffer))
    } else {
        s
    }
}

/// Power Charge's input clears the command buffer and goes into dash attack.
pub open spec fn power_charge(s: DollyState, f: DollyFrame) -> DollyState {
    if s.command(f, Command::SpecialN2Command) {
        s.clear_commands().emit(to_status(StatusKind::AttackDash, false))
    } else {
        s
    }
}

/// The three smash attacks, as magic series cancels.
pub open spec fn smash_magic_cancels(s: DollyState, f: DollyFrame) -> DollyState {
    let a = magic_cancel_on(s, f, Command::AttackS4, StatusKind::AttackS4Start, true);
    let b = magic_cancel_on(a, f, Command::AttackHi4, StatusKind::AttackHi4Start, true);
    magic_cancel_on(b, f, Command::AttackLw4, StatusKind::AttackLw4Start, true)
}

/// Both supers' transition terms, while supers are enabled.
pub open spec fn super_terms(s: DollyState) -> DollyState {
    if s.super_special_enabled {
        s.emit(Request::EnableTerm(Term::ContSuperSpecial)).emit(
            Request::EnableTerm(Term::ContSuperSpecial2),
        )
    } else {
        s
    }
}

/// Both supers on their inputs, while supers are enabled.
pub open spec fn super_inputs(s: DollyState, f: DollyFrame) -> DollyState {
    if s.super_special_enabled {
        s.emit_if(f.super_special_command, to_status(StatusKind::DollySuperSpecial, false)).emit_if(
            f.super_special2_command,
            to_status(StatusKind::DollySuperSpecial2, false),
        )
    } else {
        s
    }
}

/// The transition terms of the command specials.
pub open spec fn command_special_terms(s: DollyState, with_rising_tackle: bool) -> DollyState {
    let a = s.emit(Request::EnableTerm(Term::ContSpecialSCommand));
    let b = a.emit_if(with_rising_tackle, Request::EnableTerm(Term::ContSpecialHiCommand));
    b.emit(Request::EnableTerm(Term::ContSpecialLwCommand))
}

pub open spec fn into_power_wave(s: DollyState, f: DollyFrame) -> DollyState {
    cancel_on(s, f, Command::SpecialN, StatusKind::SpecialN)
}

pub open spec fn into_burn_knuckle(s: DollyState, f: DollyFrame) -> DollyState {
    let a = s.emit_if(
        s.command(f, Command::SpecialS) && f.stick_forward,
        to_status(StatusKind::SpecialS, false),
    );
    cancel_on(a, f, Command::SpecialNCommand, StatusKind::DollySpecialSCommand)
}

pub open spec fn into_crack_shoot(s: DollyState, f: DollyFrame) -> DollyState {
    let a = s.emit_if(
        s.command(f, Command::SpecialS) && f.stick_backward,
        to_status(StatusKind::DollySpecialB, false),
    );
    cancel_on(a, f, Command::SpecialSCommand, StatusKind::DollySpecialBCommand)
}

pub open spec fn into_rising_tackle(s: DollyState, f: DollyFrame) -> DollyState {
    let a = cancel_on(s, f, Command::SpecialHi, StatusKind::SpecialHi);
    cancel_on(a, f, Command::SpecialHi2Command, StatusKind::DollySpecialHiCommand)
}

pub open spec fn into_power_dunk(s: DollyState, f: DollyFrame) -> DollyState {
    let a = cancel_on(s, f, Command::SpecialLw, StatusKind::SpecialLw);
    cancel_on(a, f, Command::SpecialHiCommand, StatusKind::DollySpecialLwCommand)
}

/// Level 1: a jab that connects cancels into a tilt (not out of the third
/// jab), a smash attack, or Power Charge.
pub open spec fn spec_jab_cancels(s: DollyState, f: DollyFrame) -> DollyState {
    if f.status_kind == StatusKind::Attack && connected(f) {
        let a = if f.motion_kind != MOTION_ATTACK_13 {
            let t1 = magic_cancel_on(s, f, Command::AttackS3, StatusKind::AttackS3, false);
            let t2 = magic_cancel_on(t1, f, Command::AttackHi3, StatusKind::AttackHi3, false);
            magic_cancel_on(t2, f, Command::AttackLw3, StatusKind::AttackLw3, false)
        } else {
            s
        };
        power_charge(smash_magic_cancels(a, f), f)
    } else {
        s
    }
}

/// Level 2: a tilt that connects cancels into a smash attack or Power Charge;
/// forward tilt's first hit into up tilt; after frame 13 of a hit, up tilt
/// into a jump or a dash, and forward tilt into a dash unless the additional
/// magic cancel is marked.
pub open spec fn spec_tilt_cancels(s: DollyState, f: DollyFrame) -> DollyState {
    if is_tilt(f.status_kind) && connected(f) {
        let a = if f.motion_kind == MOTION_ATTACK_S3_S {
            magic_cancel_on(s, f, Command::AttackHi3, StatusKind::AttackHi3, false)
        } else {
            s
        };
        let b = power_charge(smash_magic_cancels(a, f), f);
        let c = if f.status_kind == StatusKind::AttackHi3 && f.hit && f.frame.gt(13) {
            let j = b.emit_if(b.command(f, Command::Jump), to_status(StatusKind::JumpSquat, true));
            cancel_on(j, f, Command::Dash, StatusKind::Dash)
        } else {
            b
        };
        if f.status_kind == StatusKind::AttackS3 && f.hit && f.frame.gt(13) {
            c.emit_if(
                c.command(f, Command::Dash) && !c.vars.magic_cancel_additional,
                to_status(StatusKind::Dash, false),
            )
        } else {
            c
        }
    } else {
        s
    }
}

/// A dash attack that connects cancels into either super.
pub open spec fn spec_dash_attack_cancels(s: DollyState, f: DollyFrame) -> DollyState {
    if f.status_kind == StatusKind::AttackDash && connected(f) {
        super_inputs(super_terms(s), f)
    } else {
        s
    }
}

/// A smash attack that connects cancels into Power Charge, any special, or
/// either super.
pub open spec fn spec_smash_cancels(s: DollyState, f: DollyFrame) -> DollyState {
    if is_smash(f.status_kind) && connected(f) {
        let a = super_terms(command_special_terms(power_charge(s, f), true));
        let b = into_power_dunk(
            into_rising_tackle(into_crack_shoot(into_burn_knuckle(into_power_wave(a, f), f), f), f),
            f,
        );
        super_inputs(power_charge(b, f), f)
    } else {
        s
    }
}

/// A forward input with either forward attack button.
pub open spec fn air_forward(s: DollyState, f: DollyFrame) -> bool {
    (s.command(f, Command::AttackS3) && f.stick_forward) || (s.command(f, Command::AttackS4)
        && f.stick_forward)
}

/// A backward input with either forward attack button.
pub open spec fn air_backward(s: DollyState, f: DollyFrame) -> bool {
    (s.command(f, Command::AttackS3) && f.stick_backward) || (s.command(f, Command::AttackS4)
        && f.stick_backward)
}

/// An aerial that connects cancels into another aerial: neutral air into
/// any; forward air into back, up or down air; up air into back or down air;
/// down air into back air.
pub open spec fn spec_aerial_cancels(s: DollyState, f: DollyFrame) -> DollyState {
    if f.status_kind == StatusKind::AttackAir && connected(f) {
        let air = to_status(StatusKind::AttackAir, false);
        let n = if f.motion_kind == MOTION_ATTACK_AIR_N {
            s.emit_if(air_forward(s, f), air).emit_if(air_backward(s, f), air).emit_if(
                f.attack_hi_command,
                air,
            ).emit_if(f.attack_lw_command, air)
        } else {
            s
        };
        let fa = if f.motion_kind == MOTION_ATTACK_AIR_F {
            n.emit_if(air_backward(n, f), air).emit_if(f.attack_hi_command, air).emit_if(
                f.attack_lw_command,
                air,
            )
        } else {
            n
        };
        let hi = if f.motion_kind == MOTION_ATTACK_AIR_HI {
            fa.emit_if(air_backward(fa, f), air).emit_if(f.attack_lw_command, air)
        } else {
            fa
        };
        if f.motion_kind == MOTION_ATTACK_AIR_LW {
            hi.emit_if(air_backward(hi, f), air)
        } else {
            hi
        }
    } else {
        s
    }
}

/// A special that hits cancels into either super; with a level of meter,
/// Burn Knuckle cancels into Crack Shoot, Rising Tackle or Power Dunk, and
/// Rising Tackle into Power Wave, Burn Knuckle, Crack Shoot or Power Dunk.
pub open spec fn spec_special_cancels(s: DollyState, f: DollyFrame) -> DollyState {
    if is_special_status(f.status_kind) && f.hit {
        let a = super_inputs(super_terms(s), f);
        let b = if is_burn_knuckle(f.status_kind) {
            let t = command_special_terms(a, true);
            if f.meter_level >= 1 {
                into_power_dunk(into_rising_tackle(into_crack_shoot(t, f), f), f)
            } else {
                t
            }
        } else {
            a
        };
        if is_rising_tackle(f.status_kind) {
            let t = command_special_terms(b, false);
            if f.meter_level >= 1 {
                into_power_dunk(
                    into_crack_shoot(into_burn_knuckle(into_power_wave(t, f), f), f),
                    f,
                )
            } else {
                t
            }
        } else {
            b
        }
    } else {
        s
    }
}

/// The magic series: jab, tilt, dash attack, smash, aerial and special
/// cancels, in that order.
pub open spec fn spec_magic_series(s: DollyState, f: DollyFrame) -> DollyState {
    let a = spec_jab_cancels(s, f);
    let b = spec_tilt_cancels(a, f);
    let c = spec_dash_attack_cancels(b, f);
    let d = spec_smash_cancels(c, f);
    let e = spec_aerial_cancels(d, f);
    spec_special_cancels(e, f)
}

impl DollyCtx {
    fn cancel_on(&mut self, f: &DollyFrame, c: Command, status: StatusKind)
        ensures
            final(self)@ == cancel_on(old(self)@, *f, c, status),
    {
        let go = self.command(f, c);
        self.emit_if(go, Request::ChangeStatus { status, clear_buffer: false });
    }

    fn magic_cancel_on(&mut self, f: &DollyFrame, c: Command, status: StatusKind, clear_buffer: bool)
        ensures
            final(self)@ == magic_cancel_on(old(self)@, *f, c, status, clear_buffer),
    {
        if self.command(f, c) {
            self.mark_magic_series();
            self.emit(Request::ChangeStatus { status, clear_buffer });
        }
    }

    fn power_charge(&mut self, f: &DollyFrame)
        ensures
            final(self)@ == power_charge(old(self)@, *f),
    {
        if self.command(f, Command::SpecialN2Command) {
            self.clear_commands();
            self.emit(Request::ChangeStatus { status: StatusKind::AttackDash, clear_buffer: false });
        }
    }

    fn smash_magic_cancels(&mut self, f: &DollyFrame)
        ensures
            final(self)@ == smash_magic_cancels(old(self)@, *f),
    {
        self.magic_cancel_on(f, Command::AttackS4, StatusKind::AttackS4Start, true);
        self.magic_cancel_on(f, Command::AttackHi4, StatusKind::AttackHi4Start, true);
        self.magic_cancel_on(f, Command::AttackLw4, StatusKind::AttackLw4Start, true);
    }

    fn super_terms(&mut self)
        ensures
            final(self)@ == super_terms(old(self)@),
    {
        if self.super_special_enabled {
            self.emit(Request::EnableTerm(Term::ContSuperSpecial));
            self.emit(Request::EnableTerm(Term::ContSuperSpecial2));
        }
    }

    fn super_inputs(&mut self, f: &DollyFrame)
        ensures
            final(self)@ == super_inputs(old(self)@, *f),
    {
        if self.super_special_enabled {
            self.emit_if(
                f.super_special_command,
                Request::ChangeStatus { status: StatusKind::DollySuperSpecial, clear_buffer: false },
            );
            self.emit_if(
                f.super_special2_command,
                Request::ChangeStatus {
                    status: StatusKind::DollySuperSpecial2,
                    clear_buffer: false,
                },
            );
        }
    }

    fn command_special_terms(&mut self, with_rising_tackle: bool)
        ensures
            final(self)@ == command_special_terms(old(self)@, with_rising_tackle),
    {
        self.emit(Request::EnableTerm(Term::ContSpecialSCommand));
        self.emit_if(with_rising_tackle, Request::EnableTerm(Term::ContSpecialHiCommand));
        self.emit(Request::EnableTerm(Term::ContSpecialLwCommand));
    }

    fn into_power_wave(&mut self, f: &DollyFrame)
        ensures
            final(self)@ == into_power_wave(old(self)@, *f),
    {
        self.cancel_on(f, Command::SpecialN, StatusKind::SpecialN);
    }

    fn into_burn_knuckle(&mut self, f: &DollyFrame)
        ensures
            final(self)@ == into_burn_knuckle(old(self)@, *f),
    {
        let go = self.command(f, Command::SpecialS) && f.stick_forward;
        self.emit_if(go, Request::ChangeStatus { status: StatusKind::SpecialS, clear_buffer: false });
        self.cancel_on(f, Command::SpecialNCommand, StatusKind::DollySpecialSCommand);
    }

    fn into_crack_shoot(&mut self, f: &DollyFrame)
        ensures
            final(self)@ == into_crack_shoot(old(self)@, *f),
    {
        let go = self.command(f, Command::SpecialS) && f.stick_backward;
        self.emit_if(
            go,
            Request::ChangeStatus { status: StatusKind::DollySpecialB, clear_buffer: false },
        );
        self.cancel_on(f, Command::SpecialSCommand, StatusKind::DollySpecialBCommand);
    }

    fn into_rising_tackle(&mut self, f: &DollyFrame)
        ensures
            final(self)@ == into_rising_tackle(old(self)@, *f),
    {
        self.cancel_on(f, Command::SpecialHi, StatusKind::SpecialHi);
        self.cancel_on(f, Command::SpecialHi2Command, StatusKind::DollySpecialHiCommand);
    }

    fn into_power_dunk(&mut self, f: &DollyFrame)
        ensures
            final(self)@ == into_power_dunk(old(self)@, *f),
    {
        self.cancel_on(f, Command::SpecialLw, StatusKind::SpecialLw);
        self.cancel_on(f, Command::SpecialHiCommand, StatusKind::DollySpecialLwCommand);
    }

    fn air_forward(&self, f: &DollyFrame) -> (r: bool)
        ensures
            r == air_forward(self@, *f),
    {
        (self.command(f, Command::AttackS3) && f.stick_forward) || (self.command(
            f,
            Command::AttackS4,
        ) && f.stick_forward)
    }

    fn air_backward(&self, f: &DollyFrame) -> (r: bool)
        ensures
            r == air_backward(self@, *f),
    {
        (self.command(f, Command::AttackS3) && f.stick_backward) || (self.command(
            f,
            Command::AttackS4,
        ) && f.stick_backward)
    }
}

fn jab_cancels(ctx: &mut DollyCtx, f: &DollyFrame)
    ensures
        final(ctx)@ == spec_jab_cancels(old(ctx)@, *f),
{
    if f.status_kind == StatusKind::Attack && (f.hit || f.shield_hit) {
        if f.motion_kind != MOTION_ATTACK_13 {
            ctx.magic_cancel_on(f, Command::AttackS3, StatusKind::AttackS3, false);
            ctx.magic_cancel_on(f, Command::AttackHi3, StatusKind::AttackHi3, false);
            ctx.magic_cancel_on(f, Command::AttackLw3, StatusKind::AttackLw3, false);
        }
        ctx.smash_magic_cancels(f);
        ctx.power_charge(f);
    }
}

fn tilt_cancels(ctx: &mut DollyCtx, f: &DollyFrame)
    ensures
        final(ctx)@ == spec_tilt_cancels(old(ctx)@, *f),
{
    if tilt(f.status_kind) && (f.hit || f.shield_hit) {
        if f.motion_kind == MOTION_ATTACK_S3_S {
            ctx.magic_cancel_on(f, Command::AttackHi3, StatusKind::AttackHi3, false);
        }
        ctx.smash_magic_cancels(f);
        ctx.power_charge(f);
        if f.status_kind == StatusKind::AttackHi3 && f.hit && f.frame.is_gt(13) {
            let jump = ctx.command(f, Command::Jump);
            ctx.emit_if(
                jump,
                Request::ChangeStatus { status: StatusKind::JumpSquat, clear_buffer: true },
            );
            ctx.cancel_on(f, Command::Dash, StatusKind::Dash);
        }
        if f.status_kind == StatusKind::AttackS3 && f.hit && f.frame.is_gt(13) {
            let dash = ctx.command(f, Command::Dash) && !ctx.vars.magic_cancel_additional;
            ctx.emit_if(
                dash,
                Request::ChangeStatus { status: StatusKind::Dash, clear_buffer: false },
            );
        }
    }
}

fn dash_attack_cancels(ctx: &mut DollyCtx, f: &DollyFrame)
    ensures
        final(ctx)@ == spec_dash_attack_cancels(old(ctx)@, *f),
{
    if f.status_kind == StatusKind::AttackDash && (f.hit || f.shield_hit) {
        ctx.super_terms();
        ctx.super_inputs(f);
    }
}

fn smash_cancels(ctx: &mut DollyCtx, f: &DollyFrame)
    ensures
        final(ctx)@ == spec_smash_cancels(old(ctx)@, *f),
{
    if smash_attack(f.status_kind) && (f.hit || f.shield_hit) {
        ctx.power_charge(f);
        ctx.command_special_terms(true);
        ctx.super_terms();
        ctx.into_power_wave(f);
        ctx.into_burn_knuckle(f);
        ctx.into_crack_shoot(f);
        ctx.into_rising_tackle(f);
        ctx.into_power_dunk(f);
        ctx.power_charge(f);
        ctx.super_inputs(f);
    }
}

fn aerial_cancels(ctx: &mut DollyCtx, f: &DollyFrame)
    ensures
        final(ctx)@ == spec_aerial_cancels(old(ctx)@, *f),
{
    if f.status_kind == StatusKind::AttackAir && (f.hit || f.shield_hit) {
        let air = Request::ChangeStatus { status: StatusKind::AttackAir, clear_buffer: false };
        if f.motion_kind == MOTION_ATTACK_AIR_N {
            let fwd = ctx.air_forward(f);
            ctx.emit_if(fwd, air);
            let back = ctx.air_backward(f);
            ctx.emit_if(back, air);
            ctx.emit_if(f.attack_hi_command, air);
            ctx.emit_if(f.attack_lw_command, air);
        }
        if f.motion_kind == MOTION_ATTACK_AIR_F {
            let back = ctx.air_backward(f);
            ctx.emit_if(back, air);
            ctx.emit_if(f.attack_hi_command, air);
            ctx.emit_if(f.attack_lw_command, air);
        }
        if f.motion_kind == MOTION_ATTACK_AIR_HI {
            let back = ctx.air_backward(f);
            ctx.emit_if(back, air);
            ctx.emit_if(f.attack_lw_command, air);
        }
        if f.motion_kind == MOTION_ATTACK_AIR_LW {
            let back = ctx.air_backward(f);
            ctx.emit_if(back, air);
        }
    }
}

fn special_cancels(ctx: &mut DollyCtx, f: &DollyFrame)
    ensures
        final(ctx)@ == spec_special_cancels(old(ctx)@, *f),
{
    if special_status(f.status_kind) && f.hit {
        ctx.super_terms();
        ctx.super_inputs(f);
        if burn_knuckle(f.status_kind) {
            ctx.command_special_terms(true);
            if f.meter_level >= 1 {
                ctx.into_crack_shoot(f);
                ctx.into_rising_tackle(f);
                ctx.into_power_dunk(f);
            }
        }
        if rising_tackle(f.status_kind) {
            ctx.command_special_terms(false);
            if f.meter_level >= 1 {
                ctx.into_power_wave(f);
                ctx.into_burn_knuckle(f);
                ctx.into_crack_shoot(f);
                ctx.into_power_dunk(f);
            }
        }
    }
}

/// The magic series of cancels, for the attack the fighter is in.
pub fn magic_series(ctx: &mut DollyCtx, f: &DollyFrame)
    ensures
        final(ctx)@ == spec_magic_series(old(ctx)@, *f),
{
    jab_cancels(ctx, f);
    tilt_cancels(ctx, f);
    dash_attack_cancels(ctx, f);
    smash_cancels(ctx, f);
    aerial_cancels(ctx, f);
    special_cancels(ctx, f);
}

// ---------------------------------------------------------------------------
// The frame
// ---------------------------------------------------------------------------
/// Terry's frame: Power Wave's cancels, Triple Geyser out of specials and
/// supers, the super meter, early super cancels, super cancels, the super
/// cancel mark, shield stop and run drop, training mode meter, and the magic
/// series, in that order.
pub open spec fn spec_moveset(s: DollyState, f: DollyFrame) -> DollyState {
    let a = spec_power_wave_dash_cancel_super_cancels(s, f);
    let b = spec_special_super_cancels_triple_geyser(a, f);
    let c = spec_super_special_meter_activation(b, f);
    let d = spec_cancel_supers_early(c, f);
    let e = spec_super_cancels(d, f);
    let g = spec_super_cancel_flag_off(e, f);
    let h = spec_shield_stop_run_drop(g, f);
    let i = spec_full_meter_training_taunt(h, f);
    spec_magic_series(i, f)
}

/// One frame of Terry's move logic.  The meter level is read once: the only
/// request that changes the meter (training mode's, in a taunt) comes in a
/// status in which nothing after it reads the meter.
pub fn moveset(ctx: &mut DollyCtx, f: &DollyFrame)
    ensures
        final(ctx)@ == spec_moveset(old(ctx)@, *f),
{
    power_wave_dash_cancel_super_cancels(ctx, f);
    special_super_cancels_triple_geyser(ctx, f);
    super_special_meter_activation(ctx, f);
    cancel_supers_early(ctx, f);
    super_cancels(ctx, f);
    super_cancel_flag_off(ctx, f);
    shield_stop_run_drop(ctx, f);
    full_meter_training_taunt(ctx, f);
    magic_series(ctx, f);
}


// ---------------------------------------------------------------------------
// Laws
// ---------------------------------------------------------------------------
/// After a frame, supers are enabled exactly when the meter has four levels,
/// whatever the flag was before.
pub proof fn law_supers_enabled_by_meter(s: DollyState, f: DollyFrame)
    ensures
        spec_moveset(s, f).super_special_enabled == (f.meter_level >= 4),
{
}

/// `t` keeps what `s` holds: the requests of `s`, in front and in order, and
/// the magic series mark if `s` has it.
pub open spec fn kept(s: DollyState, t: DollyState) -> bool {
    &&& s.requests.len() <= t.requests.len()
    &&& forall|i: int| 0 <= i < s.requests.len() ==> t.requests[i] == s.requests[i]
    &&& s.vars.magic_series_cancel ==> t.vars.magic_series_cancel
    &&& s.commands_cleared ==> t.commands_cleared
}

/// `t` keeps what `s` holds, and the super cancel mark as it was.
pub open spec fn steady(s: DollyState, t: DollyState) -> bool {
    kept(s, t) && t.vars.super_cancel == s.vars.super_cancel && no_final_added(s, t)
}

/// No request added from `s` to `t` is a change into the final.
pub open spec fn no_final_added(s: DollyState, t: DollyState) -> bool {
    forall|i: int|
        s.requests.len() <= i < t.requests.len() ==> t.requests[i] != to_status(
            StatusKind::Final,
            true,
        )
}

proof fn lemma_calm_trans(a: DollyState, b: DollyState, c: DollyState)
    requires
        kept(a, b),
        kept(b, c),
        no_final_added(a, b),
        no_final_added(b, c),
    ensures
        kept(a, c),
        no_final_added(a, c),
{
}

proof fn lemma_steady_trans(a: DollyState, b: DollyState, c: DollyState)
    requires
        steady(a, b),
        steady(b, c),
    ensures
        steady(a, c),
{
}

proof fn lemma_kept_trans(a: DollyState, b: DollyState, c: DollyState)
    requires
        kept(a, b),
        kept(b, c),
    ensures
        kept(a, c),
{
}

proof fn lemma_kept_power_wave_dash_cancel_super_cancels(s: DollyState, f: DollyFrame)
    ensures
        kept(s, spec_power_wave_dash_cancel_super_cancels(s, f)),
{
}

proof fn lemma_kept_special_super_cancels_triple_geyser(s: DollyState, f: DollyFrame)
    ensures
        kept(s, spec_special_super_cancels_triple_geyser(s, f)),
{
}

proof fn lemma_kept_super_special_meter_activation(s: DollyState, f: DollyFrame)
    ensures
        kept(s, spec_super_special_meter_activation(s, f)),
{
}

proof fn lemma_kept_cancel_supers_early(s: DollyState, f: DollyFrame)
    ensures
        kept(s, spec_cancel_supers_early(s, f)),
{
}

proof fn lemma_kept_super_cancels(s: DollyState, f: DollyFrame)
    ensures
        kept(s, spec_super_cancels(s, f)),
{
}

proof fn lemma_kept_super_cancel_flag_off(s: DollyState, f: DollyFrame)
    ensures
        kept(s, spec_super_cancel_flag_off(s, f)),
{
}

proof fn lemma_steady_cancel_on(s: DollyState, f: DollyFrame, c: Command, st: StatusKind)
    ensures
        steady(s, cancel_on(s, f, c, st)),
        cancel_on(s, f, c, st).commands_cleared == s.commands_cleared,
{
}

proof fn lemma_steady_magic_cancel_on(s: DollyState, f: DollyFrame, c: Command, st: StatusKind, b: bool)
    requires
        st != StatusKind::Final,
    ensures
        steady(s, magic_cancel_on(s, f, c, st, b)),
        magic_cancel_on(s, f, c, st, b).commands_cleared == s.commands_cleared,
{
}

proof fn lemma_steady_power_charge(s: DollyState, f: DollyFrame)
    ensures
        steady(s, power_charge(s, f)),
{
}

proof fn lemma_steady_smash_magic_cancels(s: DollyState, f: DollyFrame)
    ensures
        steady(s, smash_magic_cancels(s, f)),
{
    let a = magic_cancel_on(s, f, Command::AttackS4, StatusKind::AttackS4Start, true);
    let b = magic_cancel_on(a, f, Command::AttackHi4, StatusKind::AttackHi4Start, true);
    lemma_steady_magic_cancel_on(s, f, Command::AttackS4, StatusKind::AttackS4Start, true);
    lemma_steady_magic_cancel_on(a, f, Command::AttackHi4, StatusKind::AttackHi4Start, true);
    lemma_steady_magic_cancel_on(b, f, Command::AttackLw4, StatusKind::AttackLw4Start, true);
    lemma_steady_trans(s, a, b);
    lemma_steady_trans(s, b, smash_magic_cancels(s, f));
}

proof fn lemma_steady_super_terms(s: DollyState)
    ensures
        steady(s, super_terms(s)),
        super_terms(s).super_special_enabled == s.super_special_enabled,
{
}

proof fn lemma_steady_super_inputs(s: DollyState, f: DollyFrame)
    ensures
        steady(s, super_inputs(s, f)),
{
}

proof fn lemma_steady_command_special_terms(s: DollyState, b: bool)
    ensures
        steady(s, command_special_terms(s, b)),
        command_special_terms(s, b).commands_cleared == s.commands_cleared,
{
}

proof fn lemma_steady_into_power_wave(s: DollyState, f: DollyFrame)
    ensures
        steady(s, into_power_wave(s, f)),
        into_power_wave(s, f).commands_cleared == s.commands_cleared,
{
}

proof fn lemma_steady_into_burn_knuckle(s: DollyState, f: DollyFrame)
    ensures
        steady(s, into_burn_knuckle(s, f)),
        into_burn_knuckle(s, f).commands_cleared == s.commands_cleared,
{
}

proof fn lemma_steady_into_crack_shoot(s: DollyState, f: DollyFrame)
    ensures
        steady(s, into_crack_shoot(s, f)),
        into_crack_shoot(s, f).commands_cleared == s.commands_cleared,
{
}

proof fn lemma_steady_into_rising_tackle(s: DollyState, f: DollyFrame)
    ensures
        steady(s, into_rising_tackle(s, f)),
        into_rising_tackle(s, f).commands_cleared == s.commands_cleared,
{
}

proof fn lemma_steady_into_power_dunk(s: DollyState, f: DollyFrame)
    ensures
        steady(s, into_power_dunk(s, f)),
        into_power_dunk(s, f).commands_cleared == s.commands_cleared,
{
}

proof fn lemma_steady_jab_cancels(s: DollyState, f: DollyFrame)
    ensures
        steady(s, spec_jab_cancels(s, f)),
{
    if f.status_kind == StatusKind::Attack && connected(f) {
        let a = if f.motion_kind != MOTION_ATTACK_13 {
            let t1 = magic_cancel_on(s, f, Command::AttackS3, StatusKind::AttackS3, false);
            let t2 = magic_cancel_on(t1, f, Command::AttackHi3, StatusKind::AttackHi3, false);
            lemma_steady_magic_cancel_on(s, f, Command::AttackS3, StatusKind::AttackS3, false);
            lemma_steady_magic_cancel_on(t1, f, Command::AttackHi3, StatusKind::AttackHi3, false);
            lemma_steady_magic_cancel_on(t2, f, Command::AttackLw3, StatusKind::AttackLw3, false);
            lemma_steady_trans(s, t1, t2);
            let t3 = magic_cancel_on(t2, f, Command::AttackLw3, StatusKind::AttackLw3, false);
            lemma_steady_trans(s, t2, t3);
            t3
        } else {
            s
        };
        let b = smash_magic_cancels(a, f);
        lemma_steady_smash_magic_cancels(a, f);
        lemma_steady_power_charge(b, f);
        lemma_steady_trans(s, a, b);
        lemma_steady_trans(s, b, power_charge(b, f));
    }
}

proof fn lemma_steady_tilt_cancels(s: DollyState, f: DollyFrame)
    ensures
        steady(s, spec_tilt_cancels(s, f)),
{
    if is_tilt(f.status_kind) && connected(f) {
        let a = if f.motion_kind == MOTION_ATTACK_S3_S {
            lemma_steady_magic_cancel_on(s, f, Command::AttackHi3, StatusKind::AttackHi3, false);
            magic_cancel_on(s, f, Command::AttackHi3, StatusKind::AttackHi3, false)
        } else {
            s
        };
        let a2 = smash_magic_cancels(a, f);
        let b = power_charge(a2, f);
        lemma_steady_smash_magic_cancels(a, f);
        lemma_steady_power_charge(a2, f);
        lemma_steady_trans(s, a, a2);
        lemma_steady_trans(s, a2, b);
        let c = if f.status_kind == StatusKind::AttackHi3 && f.hit && f.frame.gt(13) {
            let j = b.emit_if(b.command(f, Command::Jump), to_status(StatusKind::JumpSquat, true));
            lemma_steady_cancel_on(j, f, Command::Dash, StatusKind::Dash);
            lemma_steady_trans(b, j, cancel_on(j, f, Command::Dash, StatusKind::Dash));
            cancel_on(j, f, Command::Dash, StatusKind::Dash)
        } else {
            b
        };
        lemma_steady_trans(s, b, c);
        assert(steady(c, spec_tilt_cancels(s, f)));
        lemma_steady_trans(s, c, spec_tilt_cancels(s, f));
    }
}

proof fn lemma_steady_dash_attack_cancels(s: DollyState, f: DollyFrame)
    ensures
        steady(s, spec_dash_attack_cancels(s, f)),
{
    lemma_steady_super_terms(s);
    lemma_steady_super_inputs(super_terms(s), f);
    lemma_steady_trans(s, super_terms(s), super_inputs(super_terms(s), f));
}

proof fn lemma_steady_smash_cancels(s: DollyState, f: DollyFrame)
    ensures
        steady(s, spec_smash_cancels(s, f)),
{
    if is_smash(f.status_kind) && connected(f) {
        let p = power_charge(s, f);
        let q = command_special_terms(p, true);
        let a = super_terms(q);
        let b1 = into_power_wave(a, f);
        let b2 = into_burn_knuckle(b1, f);
        let b3 = into_crack_shoot(b2, f);
        let b4 = into_rising_tackle(b3, f);
        let b = into_power_dunk(b4, f);
        let c = power_charge(b, f);
        lemma_steady_power_charge(s, f);
        lemma_steady_command_special_terms(p, true);
        lemma_steady_super_terms(q);
        lemma_steady_into_power_wave(a, f);
        lemma_steady_into_burn_knuckle(b1, f);
        lemma_steady_into_crack_shoot(b2, f);
        lemma_steady_into_rising_tackle(b3, f);
        lemma_steady_into_power_dunk(b4, f);
        lemma_steady_power_charge(b, f);
        lemma_steady_super_inputs(c, f);
        lemma_steady_trans(s, p, q);
        lemma_steady_trans(s, q, a);
        lemma_steady_trans(s, a, b1);
        lemma_steady_trans(s, b1, b2);
        lemma_steady_trans(s, b2, b3);
        lemma_steady_trans(s, b3, b4);
        lemma_steady_trans(s, b4, b);
        lemma_steady_trans(s, b, c);
        lemma_steady_trans(s, c, super_inputs(c, f));
    }
}

proof fn lemma_steady_aerial_cancels(s: DollyState, f: DollyFrame)
    ensures
        steady(s, spec_aerial_cancels(s, f)),
{
}

proof fn lemma_steady_special_cancels(s: DollyState, f: DollyFrame)
    ensures
        steady(s, spec_special_cancels(s, f)),
{
    if is_special_status(f.status_kind) && f.hit {
        let a0 = super_terms(s);
        let a = super_inputs(a0, f);
        lemma_steady_super_terms(s);
        lemma_steady_super_inputs(a0, f);
        lemma_steady_trans(s, a0, a);
        let b = if is_burn_knuckle(f.status_kind) {
            let t = command_special_terms(a, true);
            lemma_steady_command_special_terms(a, true);
            if f.meter_level >= 1 {
                let x1 = into_crack_shoot(t, f);
                let x2 = into_rising_tackle(x1, f);
                lemma_steady_into_crack_shoot(t, f);
                lemma_steady_into_rising_tackle(x1, f);
                lemma_steady_into_power_dunk(x2, f);
                lemma_steady_trans(a, t, x1);
                lemma_steady_trans(a, x1, x2);
                lemma_steady_trans(a, x2, into_power_dunk(x2, f));
                into_power_dunk(x2, f)
            } else {
                t
            }
        } else {
            a
        };
        lemma_steady_trans(s, a, b);
        if is_rising_tackle(f.status_kind) {
            let t = command_special_terms(b, false);
            lemma_steady_command_special_terms(b, false);
            if f.meter_level >= 1 {
                let y1 = into_power_wave(t, f);
                let y2 = into_burn_knuckle(y1, f);
                let y3 = into_crack_shoot(y2, f);
                lemma_steady_into_power_wave(t, f);
                lemma_steady_into_burn_knuckle(y1, f);
                lemma_steady_into_crack_shoot(y2, f);
                lemma_steady_into_power_dunk(y3, f);
                lemma_steady_trans(b, t, y1);
                lemma_steady_trans(b, y1, y2);
                lemma_steady_trans(b, y2, y3);
                lemma_steady_trans(b, y3, into_power_dunk(y3, f));
            }
        }
    }
}

proof fn lemma_steady_shield_stop_run_drop(s: DollyState, f: DollyFrame)
    ensures
        steady(s, spec_shield_stop_run_drop(s, f)),
{
}

proof fn lemma_steady_full_meter_training_taunt(s: DollyState, f: DollyFrame)
    ensures
        steady(s, spec_full_meter_training_taunt(s, f)),
{
}

proof fn lemma_steady_magic_series(s: DollyState, f: DollyFrame)
    ensures
        steady(s, spec_magic_series(s, f)),
{
    let a = spec_jab_cancels(s, f);
    let b = spec_tilt_cancels(a, f);
    let c = spec_dash_attack_cancels(b, f);
    let d = spec_smash_cancels(c, f);
    let e = spec_aerial_cancels(d, f);
    lemma_steady_jab_cancels(s, f);
    lemma_steady_tilt_cancels(a, f);
    lemma_steady_dash_attack_cancels(b, f);
    lemma_steady_smash_cancels(c, f);
    lemma_steady_aerial_cancels(d, f);
    lemma_steady_special_cancels(e, f);
    lemma_steady_trans(s, a, b);
    lemma_steady_trans(s, b, c);
    lemma_steady_trans(s, c, d);
    lemma_steady_trans(s, d, e);
    lemma_steady_trans(s, e, spec_magic_series(s, f));
}

proof fn lemma_kept_moveset(s: DollyState, f: DollyFrame)
    ensures
        kept(s, spec_moveset(s, f)),
        spec_moveset(s, f).vars.super_cancel ==> is_super_status(f.status_kind),
{
    let a = spec_power_wave_dash_cancel_super_cancels(s, f);
    let b = spec_special_super_cancels_triple_geyser(a, f);
    let c = spec_super_special_meter_activation(b, f);
    let d = spec_cancel_supers_early(c, f);
    let e = spec_super_cancels(d, f);
    let g = spec_super_cancel_flag_off(e, f);
    let h = spec_shield_stop_run_drop(g, f);
    let i = spec_full_meter_training_taunt(h, f);
    lemma_kept_power_wave_dash_cancel_super_cancels(s, f);
    lemma_kept_special_super_cancels_triple_geyser(a, f);
    lemma_kept_super_special_meter_activation(b, f);
    lemma_kept_cancel_supers_early(c, f);
    lemma_kept_super_cancels(d, f);
    lemma_kept_super_cancel_flag_off(e, f);
    lemma_steady_shield_stop_run_drop(g, f);
    lemma_steady_full_meter_training_taunt(h, f);
    lemma_steady_magic_series(i, f);
    lemma_steady_trans(g, h, i);
    lemma_steady_trans(g, i, spec_moveset(s, f));
    assert(g.vars.super_cancel ==> is_super_status(f.status_kind));
    lemma_kept_trans(s, a, b);
    lemma_kept_trans(s, b, c);
    lemma_kept_trans(s, c, d);
    lemma_kept_trans(s, d, e);
    lemma_kept_trans(s, e, g);
    lemma_kept_trans(s, g, h);
    lemma_kept_trans(s, h, i);
    lemma_kept_trans(s, i, spec_moveset(s, f));
}

/// A frame only adds requests: those made before stay, in order, in front.
pub proof fn law_requests_only_appended(s: DollyState, f: DollyFrame)
    ensures
        s.requests.is_prefix_of(spec_moveset(s, f).requests),
{
    lemma_kept_moveset(s, f);
    let t = spec_moveset(s, f);
    assert(s.requests =~= t.requests.subrange(0, s.requests.len() as int));
}

/// A frame never takes back the magic series mark nor the clearing of the
/// command buffer, and leaves the super cancel mark set only in a super.
pub proof fn law_marks(s: DollyState, f: DollyFrame)
    ensures
        s.vars.magic_series_cancel ==> spec_moveset(s, f).vars.magic_series_cancel,
        s.commands_cleared ==> spec_moveset(s, f).commands_cleared,
        spec_moveset(s, f).vars.super_cancel ==> is_super_status(f.status_kind),
{
    lemma_kept_moveset(s, f);
}

proof fn lemma_calm_power_wave_dash_cancel_super_cancels(s: DollyState, f: DollyFrame)
    requires
        f.meter_level < 6,
    ensures
        no_final_added(s, spec_power_wave_dash_cancel_super_cancels(s, f)),
{
}

proof fn lemma_calm_special_super_cancels_triple_geyser(s: DollyState, f: DollyFrame)
    requires
        f.meter_level < 6,
    ensures
        no_final_added(s, spec_special_super_cancels_triple_geyser(s, f)),
{
}

proof fn lemma_calm_super_special_meter_activation(s: DollyState, f: DollyFrame)
    requires
        f.meter_level < 6,
    ensures
        no_final_added(s, spec_super_special_meter_activation(s, f)),
{
}

proof fn lemma_calm_cancel_supers_early(s: DollyState, f: DollyFrame)
    requires
        f.meter_level < 6,
    ensures
        no_final_added(s, spec_cancel_supers_early(s, f)),
{
}

proof fn lemma_calm_super_cancels(s: DollyState, f: DollyFrame)
    requires
        f.meter_level < 6,
    ensures
        no_final_added(s, spec_super_cancels(s, f)),
{
}

proof fn lemma_calm_super_cancel_flag_off(s: DollyState, f: DollyFrame)
    requires
        f.meter_level < 6,
    ensures
        no_final_added(s, spec_super_cancel_flag_off(s, f)),
{
}

/// Terry asks for the final (Triple Geyser) only with six levels of meter
/// or more.
pub proof fn law_final_needs_meter(s: DollyState, f: DollyFrame)
    requires
        f.meter_level < 6,
    ensures
        forall|i: int|
            s.requests.len() <= i < spec_moveset(s, f).requests.len()
                ==> spec_moveset(s, f).requests[i] != to_status(StatusKind::Final, true),
{
    let a = spec_power_wave_dash_cancel_super_cancels(s, f);
    let b = spec_special_super_cancels_triple_geyser(a, f);
    let c = spec_super_special_meter_activation(b, f);
    let d = spec_cancel_supers_early(c, f);
    let e = spec_super_cancels(d, f);
    let g = spec_super_cancel_flag_off(e, f);
    let h = spec_shield_stop_run_drop(g, f);
    let i = spec_full_meter_training_taunt(h, f);
    lemma_kept_power_wave_dash_cancel_super_cancels(s, f);
    lemma_kept_special_super_cancels_triple_geyser(a, f);
    lemma_kept_super_special_meter_activation(b, f);
    lemma_kept_cancel_supers_early(c, f);
    lemma_kept_super_cancels(d, f);
    lemma_kept_super_cancel_flag_off(e, f);
    lemma_calm_power_wave_dash_cancel_super_cancels(s, f);
    lemma_calm_special_super_cancels_triple_geyser(a, f);
    lemma_calm_super_special_meter_activation(b, f);
    lemma_calm_cancel_supers_early(c, f);
    lemma_calm_super_cancels(d, f);
    lemma_calm_super_cancel_flag_off(e, f);
    lemma_steady_shield_stop_run_drop(g, f);
    lemma_steady_full_meter_training_taunt(h, f);
    lemma_steady_magic_series(i, f);
    lemma_calm_trans(s, a, b);
    lemma_calm_trans(s, b, c);
    lemma_calm_trans(s, c, d);
    lemma_calm_trans(s, d, e);
    lemma_calm_trans(s, e, g);
    lemma_calm_trans(s, g, h);
    lemma_calm_trans(s, h, i);
    lemma_calm_trans(s, i, spec_moveset(s, f));
}

/// No magic series cancel comes from an attack that has connected with
/// nothing.
pub proof fn law_no_contact_no_magic_series(s: DollyState, f: DollyFrame)
    requires
        !f.hit,
        !f.shield_hit,
    ensures
        spec_magic_series(s, f) == s,
{
}


/// Cancelling a special into another special costs a level of meter: from a
/// special with an empty meter, the magic series only opens transition terms
/// and goes into supers.
pub proof fn law_special_cancels_cost_meter(s: DollyState, f: DollyFrame)
    requires
        is_special_status(f.status_kind),
        f.meter_level < 1,
    ensures
        s.requests.is_prefix_of(spec_magic_series(s, f).requests),
        forall|i: int|
            s.requests.len() <= i < spec_magic_series(s, f).requests.len() ==> {
                let r = #[trigger] spec_magic_series(s, f).requests[i];
                ||| r is EnableTerm
                ||| r == to_status(StatusKind::DollySuperSpecial, false)
                ||| r == to_status(StatusKind::DollySuperSpecial2, false)
            },
{
    let t = spec_magic_series(s, f);
    assert(s.requests =~= t.requests.subrange(0, s.requests.len() as int));
}


// ---------------------------------------------------------------------------
// Behaviour laws: what each cancel does, stated on the frame's fields
// ---------------------------------------------------------------------------
/// `r` is among the requests that `t` has added to those of `s`.
pub open spec fn appends(s: DollyState, t: DollyState, r: Request) -> bool {
    exists|i: int| s.requests.len() <= i < t.requests.len() && t.requests[i] == r
}

/// 1 if `b`, else 0.
pub open spec fn one_if(b: bool) -> int {
    if b {
        1
    } else {
        0
    }
}

/// A forward-attack input toward `forward` (or away from it) reads as given.
pub open spec fn side_attack_input(s: DollyState, f: DollyFrame, toward: bool) -> bool {
    !s.commands_cleared && (f.commands.attack_s3 || f.commands.attack_s4) && toward
}

/// An aerial that connects cancels into another aerial once per input it
/// takes: neutral air on forward, back, up and down inputs; forward air on
/// back, up and down; up air on back and down; down air on back; back air on
/// none.  Nothing else is requested and nothing else changes.
pub proof fn law_aerial_cancels(s: DollyState, f: DollyFrame)
    requires
        f.status_kind == StatusKind::AttackAir,
        f.hit || f.shield_hit,
    ensures
        ({
            let t = spec_magic_series(s, f);
            let fwd = one_if(side_attack_input(s, f, f.stick_forward));
            let back = one_if(side_attack_input(s, f, f.stick_backward));
            let hi = one_if(f.attack_hi_command);
            let lw = one_if(f.attack_lw_command);
            let n = if f.motion_kind == MOTION_ATTACK_AIR_N {
                fwd + back + hi + lw
            } else if f.motion_kind == MOTION_ATTACK_AIR_F {
                back + hi + lw
            } else if f.motion_kind == MOTION_ATTACK_AIR_HI {
                back + lw
            } else if f.motion_kind == MOTION_ATTACK_AIR_LW {
                back
            } else {
                0
            };
            &&& t.requests.len() == s.requests.len() + n
            &&& forall|i: int| 0 <= i < s.requests.len() ==> t.requests[i] == s.requests[i]
            &&& forall|i: int|
                s.requests.len() <= i < t.requests.len() ==> t.requests[i] == to_status(
                    StatusKind::AttackAir,
                    false,
                )
            &&& t.vars == s.vars
            &&& t.commands_cleared == s.commands_cleared
            &&& t.super_special_enabled == s.super_special_enabled
        }),
{
}

/// Forward air that connects cancels into an aerial on a down input.
pub proof fn law_forward_air_cancels_on_down(s: DollyState, f: DollyFrame)
    requires
        f.status_kind == StatusKind::AttackAir,
        f.hit || f.shield_hit,
        f.motion_kind == MOTION_ATTACK_AIR_F,
        f.attack_lw_command,
    ensures
        appends(s, spec_magic_series(s, f), to_status(StatusKind::AttackAir, false)),
{
    law_aerial_cancels(s, f);
    let t = spec_magic_series(s, f);
    assert(t.requests[t.requests.len() - 1] == to_status(StatusKind::AttackAir, false));
}

/// Power Geyser (before or during its blow), or any status in the blow's
/// motion, with two levels of meter: Buster Wolf's transition term opens,
/// and a Buster Wolf input marks the super cancel and goes into Buster
/// Wolf.  Buster Wolf with two levels: the same into Power Geyser.  Below
/// two levels nothing happens.
pub proof fn law_super_cancels(s: DollyState, f: DollyFrame)
    ensures
        ({
            let t = spec_super_cancels(s, f);
            let into_wolf = (f.status_kind == StatusKind::DollySuperSpecial2 || f.status_kind
                == StatusKind::DollySuperSpecial2Blow || f.motion_kind
                == MOTION_SUPER_SPECIAL2_BLOW) && f.meter_level >= 2;
            let into_geyser = f.status_kind == StatusKind::DollySuperSpecial && f.meter_level >= 2;
            &&& f.meter_level < 2 ==> t == s
            &&& into_wolf && !into_geyser ==> t.requests == (if f.super_special_command {
                s.requests.push(Request::EnableTerm(Term::ContSuperSpecial)).push(
                    to_status(StatusKind::DollySuperSpecial, false),
                )
            } else {
                s.requests.push(Request::EnableTerm(Term::ContSuperSpecial))
            })
            &&& into_geyser && !into_wolf ==> t.requests == (if f.super_special2_command {
                s.requests.push(Request::EnableTerm(Term::ContSuperSpecial2)).push(
                    to_status(StatusKind::DollySuperSpecial2, false),
                )
            } else {
                s.requests.push(Request::EnableTerm(Term::ContSuperSpecial2))
            })
            &&& !into_wolf && !into_geyser ==> t == s
            &&& t.vars.super_cancel == (s.vars.super_cancel || (into_wolf
                && f.super_special_command) || (into_geyser && f.super_special2_command))
            &&& t.vars.magic_series_cancel == s.vars.magic_series_cancel
            &&& t.commands_cleared == s.commands_cleared
            &&& t.super_special_enabled == s.super_special_enabled
        }),
{
}


/// `r` alone if `c`, else nothing.
pub open spec fn seq_if(c: bool, r: Request) -> Seq<Request> {
    if c {
        seq![r]
    } else {
        Seq::empty()
    }
}

/// Command `c` reads as given at the frame's start (before any clear).
pub open spec fn given(s: DollyState, f: DollyFrame, c: Command) -> bool {
    !s.commands_cleared && f.commands.has(c)
}

/// The variables, with the magic series mark set if `c`.
pub open spec fn marked_if(v: DollyVars, c: bool) -> DollyVars {
    DollyVars { magic_series_cancel: v.magic_series_cancel || c, ..v }
}

proof fn lemma_emit_if_requests(x: DollyState, c: bool, r: Request)
    ensures
        x.emit_if(c, r).requests == x.requests + seq_if(c, r),
        x.emit_if(c, r).vars == x.vars,
        x.emit_if(c, r).commands_cleared == x.commands_cleared,
        x.emit_if(c, r).super_special_enabled == x.super_special_enabled,
{
    assert(x.emit_if(c, r).requests =~= x.requests + seq_if(c, r));
}

proof fn lemma_magic_cancel_requests(x: DollyState, f: DollyFrame, c: Command, st: StatusKind, b: bool)
    ensures
        magic_cancel_on(x, f, c, st, b).requests == x.requests + seq_if(
            x.command(f, c),
            to_status(st, b),
        ),
        magic_cancel_on(x, f, c, st, b).vars == marked_if(x.vars, x.command(f, c)),
        magic_cancel_on(x, f, c, st, b).commands_cleared == x.commands_cleared,
        magic_cancel_on(x, f, c, st, b).super_special_enabled == x.super_special_enabled,
{
    assert(magic_cancel_on(x, f, c, st, b).requests =~= x.requests + seq_if(
        x.command(f, c),
        to_status(st, b),
    ));
}

proof fn lemma_cancel_requests(x: DollyState, f: DollyFrame, c: Command, st: StatusKind)
    ensures
        cancel_on(x, f, c, st).requests == x.requests + seq_if(x.command(f, c), to_status(st, false)),
        cancel_on(x, f, c, st).vars == x.vars,
        cancel_on(x, f, c, st).commands_cleared == x.commands_cleared,
        cancel_on(x, f, c, st).super_special_enabled == x.super_special_enabled,
{
    lemma_emit_if_requests(x, x.command(f, c), to_status(st, false));
}

proof fn lemma_power_charge_requests(x: DollyState, f: DollyFrame)
    ensures
        power_charge(x, f).requests == x.requests + seq_if(
            x.command(f, Command::SpecialN2Command),
            Request::ClearCommand,
        ) + seq_if(
            x.command(f, Command::SpecialN2Command),
            to_status(StatusKind::AttackDash, false),
        ),
        power_charge(x, f).vars == x.vars,
        power_charge(x, f).commands_cleared == (x.commands_cleared || x.command(
            f,
            Command::SpecialN2Command,
        )),
        power_charge(x, f).super_special_enabled == x.super_special_enabled,
{
    let c = x.command(f, Command::SpecialN2Command);
    assert(power_charge(x, f).requests =~= x.requests + seq_if(c, Request::ClearCommand) + seq_if(
        c,
        to_status(StatusKind::AttackDash, false),
    ));
}

/// A jab that connects: unless it is the third jab, each tilt input goes
/// into its tilt; each smash input into its smash; Power Charge's input
/// clears the buffer and goes into dash attack.  A tilt or smash cancel
/// marks the magic series.
pub proof fn law_jab_cancels(s: DollyState, f: DollyFrame)
    requires
        f.status_kind == StatusKind::Attack,
        f.hit || f.shield_hit,
    ensures
        ({
            let t = spec_magic_series(s, f);
            let third = f.motion_kind == MOTION_ATTACK_13;
            let s3 = !third && given(s, f, Command::AttackS3);
            let hi3 = !third && given(s, f, Command::AttackHi3);
            let lw3 = !third && given(s, f, Command::AttackLw3);
            let s4 = given(s, f, Command::AttackS4);
            let hi4 = given(s, f, Command::AttackHi4);
            let lw4 = given(s, f, Command::AttackLw4);
            let charge = given(s, f, Command::SpecialN2Command);
            &&& t.requests == s.requests + seq_if(s3, to_status(StatusKind::AttackS3, false))
                + seq_if(hi3, to_status(StatusKind::AttackHi3, false)) + seq_if(
                lw3,
                to_status(StatusKind::AttackLw3, false),
            ) + seq_if(s4, to_status(StatusKind::AttackS4Start, true)) + seq_if(
                hi4,
                to_status(StatusKind::AttackHi4Start, true),
            ) + seq_if(lw4, to_status(StatusKind::AttackLw4Start, true)) + seq_if(
                charge,
                Request::ClearCommand,
            ) + seq_if(charge, to_status(StatusKind::AttackDash, false))
            &&& t.vars == marked_if(s.vars, s3 || hi3 || lw3 || s4 || hi4 || lw4)
            &&& t.commands_cleared == (s.commands_cleared || charge)
            &&& t.super_special_enabled == s.super_special_enabled
        }),
{
    let third = f.motion_kind == MOTION_ATTACK_13;
    let a = if !third {
        let t1 = magic_cancel_on(s, f, Command::AttackS3, StatusKind::AttackS3, false);
        let t2 = magic_cancel_on(t1, f, Command::AttackHi3, StatusKind::AttackHi3, false);
        lemma_magic_cancel_requests(s, f, Command::AttackS3, StatusKind::AttackS3, false);
        lemma_magic_cancel_requests(t1, f, Command::AttackHi3, StatusKind::AttackHi3, false);
        lemma_magic_cancel_requests(t2, f, Command::AttackLw3, StatusKind::AttackLw3, false);
        magic_cancel_on(t2, f, Command::AttackLw3, StatusKind::AttackLw3, false)
    } else {
        assert(s.requests =~= s.requests + seq_if(false, to_status(StatusKind::AttackS3, false))
            + seq_if(false, to_status(StatusKind::AttackHi3, false)) + seq_if(
            false,
            to_status(StatusKind::AttackLw3, false),
        ));
        s
    };
    let b1 = magic_cancel_on(a, f, Command::AttackS4, StatusKind::AttackS4Start, true);
    let b2 = magic_cancel_on(b1, f, Command::AttackHi4, StatusKind::AttackHi4Start, true);
    let b3 = magic_cancel_on(b2, f, Command::AttackLw4, StatusKind::AttackLw4Start, true);
    lemma_magic_cancel_requests(a, f, Command::AttackS4, StatusKind::AttackS4Start, true);
    lemma_magic_cancel_requests(b1, f, Command::AttackHi4, StatusKind::AttackHi4Start, true);
    lemma_magic_cancel_requests(b2, f, Command::AttackLw4, StatusKind::AttackLw4Start, true);
    lemma_power_charge_requests(b3, f);
}

proof fn lemma_super_terms_requests(x: DollyState)
    ensures
        super_terms(x).requests == x.requests + seq_if(
            x.super_special_enabled,
            Request::EnableTerm(Term::ContSuperSpecial),
        ) + seq_if(x.super_special_enabled, Request::EnableTerm(Term::ContSuperSpecial2)),
        super_terms(x).vars == x.vars,
        super_terms(x).commands_cleared == x.commands_cleared,
        super_terms(x).super_special_enabled == x.super_special_enabled,
{
    assert(super_terms(x).requests =~= x.requests + seq_if(
        x.super_special_enabled,
        Request::EnableTerm(Term::ContSuperSpecial),
    ) + seq_if(x.super_special_enabled, Request::EnableTerm(Term::ContSuperSpecial2)));
}

proof fn lemma_super_inputs_requests(x: DollyState, f: DollyFrame)
    ensures
        super_inputs(x, f).requests == x.requests + seq_if(
            x.super_special_enabled && f.super_special_command,
            to_status(StatusKind::DollySuperSpecial, false),
        ) + seq_if(
            x.super_special_enabled && f.super_special2_command,
            to_status(StatusKind::DollySuperSpecial2, false),
        ),
        super_inputs(x, f).vars == x.vars,
        super_inputs(x, f).commands_cleared == x.commands_cleared,
        super_inputs(x, f).super_special_enabled == x.super_special_enabled,
{
    assert(super_inputs(x, f).requests =~= x.requests + seq_if(
        x.super_special_enabled && f.super_special_command,
        to_status(StatusKind::DollySuperSpecial, false),
    ) + seq_if(
        x.super_special_enabled && f.super_special2_command,
        to_status(StatusKind::DollySuperSpecial2, false),
    ));
}

proof fn lemma_command_special_terms_requests(x: DollyState, b: bool)
    ensures
        command_special_terms(x, b).requests == x.requests + seq_if(
            true,
            Request::EnableTerm(Term::ContSpecialSCommand),
        ) + seq_if(b, Request::EnableTerm(Term::ContSpecialHiCommand)) + seq_if(
            true,
            Request::EnableTerm(Term::ContSpecialLwCommand),
        ),
        command_special_terms(x, b).vars == x.vars,
        command_special_terms(x, b).commands_cleared == x.commands_cleared,
        command_special_terms(x, b).super_special_enabled == x.super_special_enabled,
{
    assert(command_special_terms(x, b).requests =~= x.requests + seq_if(
        true,
        Request::EnableTerm(Term::ContSpecialSCommand),
    ) + seq_if(b, Request::EnableTerm(Term::ContSpecialHiCommand)) + seq_if(
        true,
        Request::EnableTerm(Term::ContSpecialLwCommand),
    ));
}

proof fn lemma_into_power_wave_requests(x: DollyState, f: DollyFrame)
    ensures
        into_power_wave(x, f).requests == x.requests + seq_if(
            x.command(f, Command::SpecialN),
            to_status(StatusKind::SpecialN, false),
        ),
        into_power_wave(x, f).vars == x.vars,
        into_power_wave(x, f).commands_cleared == x.commands_cleared,
        into_power_wave(x, f).super_special_enabled == x.super_special_enabled,
{
    lemma_cancel_requests(x, f, Command::SpecialN, StatusKind::SpecialN);
}

proof fn lemma_into_burn_knuckle_requests(x: DollyState, f: DollyFrame)
    ensures
        into_burn_knuckle(x, f).requests == x.requests + seq_if(
            x.command(f, Command::SpecialS) && f.stick_forward,
            to_status(StatusKind::SpecialS, false),
        ) + seq_if(
            x.command(f, Command::SpecialNCommand),
            to_status(StatusKind::DollySpecialSCommand, false),
        ),
        into_burn_knuckle(x, f).vars == x.vars,
        into_burn_knuckle(x, f).commands_cleared == x.commands_cleared,
        into_burn_knuckle(x, f).super_special_enabled == x.super_special_enabled,
{
    let a = x.emit_if(
        x.command(f, Command::SpecialS) && f.stick_forward,
        to_status(StatusKind::SpecialS, false),
    );
    lemma_emit_if_requests(
        x,
        x.command(f, Command::SpecialS) && f.stick_forward,
        to_status(StatusKind::SpecialS, false),
    );
    lemma_cancel_requests(a, f, Command::SpecialNCommand, StatusKind::DollySpecialSCommand);
}

proof fn lemma_into_crack_shoot_requests(x: DollyState, f: DollyFrame)
    ensures
        into_crack_shoot(x, f).requests == x.requests + seq_if(
            x.command(f, Command::SpecialS) && f.stick_backward,
            to_status(StatusKind::DollySpecialB, false),
        ) + seq_if(
            x.command(f, Command::SpecialSCommand),
            to_status(StatusKind::DollySpecialBCommand, false),
        ),
        into_crack_shoot(x, f).vars == x.vars,
        into_crack_shoot(x, f).commands_cleared == x.commands_cleared,
        into_crack_shoot(x, f).super_special_enabled == x.super_special_enabled,
{
    let a = x.emit_if(
        x.command(f, Command::SpecialS) && f.stick_backward,
        to_status(StatusKind::DollySpecialB, false),
    );
    lemma_emit_if_requests(
        x,
        x.command(f, Command::SpecialS) && f.stick_backward,
        to_status(StatusKind::DollySpecialB, false),
    );
    lemma_cancel_requests(a, f, Command::SpecialSCommand, StatusKind::DollySpecialBCommand);
}

proof fn lemma_into_rising_tackle_requests(x: DollyState, f: DollyFrame)
    ensures
        into_rising_tackle(x, f).requests == x.requests + seq_if(
            x.command(f, Command::SpecialHi),
            to_status(StatusKind::SpecialHi, false),
        ) + seq_if(
            x.command(f, Command::SpecialHi2Command),
            to_status(StatusKind::DollySpecialHiCommand, false),
        ),
        into_rising_tackle(x, f).vars == x.vars,
        into_rising_tackle(x, f).commands_cleared == x.commands_cleared,
        into_rising_tackle(x, f).super_special_enabled == x.super_special_enabled,
{
    let a = cancel_on(x, f, Command::SpecialHi, StatusKind::SpecialHi);
    lemma_cancel_requests(x, f, Command::SpecialHi, StatusKind::SpecialHi);
    lemma_cancel_requests(a, f, Command::SpecialHi2Command, StatusKind::DollySpecialHiCommand);
}

proof fn lemma_into_power_dunk_requests(x: DollyState, f: DollyFrame)
    ensures
        into_power_dunk(x, f).requests == x.requests + seq_if(
            x.command(f, Command::SpecialLw),
            to_status(StatusKind::SpecialLw, false),
        ) + seq_if(
            x.command(f, Command::SpecialHiCommand),
            to_status(StatusKind::DollySpecialLwCommand, false),
        ),
        into_power_dunk(x, f).vars == x.vars,
        into_power_dunk(x, f).commands_cleared == x.commands_cleared,
        into_power_dunk(x, f).super_special_enabled == x.super_special_enabled,
{
    let a = cancel_on(x, f, Command::SpecialLw, StatusKind::SpecialLw);
    lemma_cancel_requests(x, f, Command::SpecialLw, StatusKind::SpecialLw);
    lemma_cancel_requests(a, f, Command::SpecialHiCommand, StatusKind::DollySpecialLwCommand);
}

proof fn lemma_magic_series_sections(s: DollyState, f: DollyFrame)
    ensures
        is_tilt(f.status_kind) ==> spec_magic_series(s, f) == spec_tilt_cancels(s, f),
        is_special_status(f.status_kind) ==> spec_magic_series(s, f) == spec_special_cancels(s, f),
{
}

/// A tilt that connects: forward tilt's first hit goes into up tilt on its
/// input; each smash input into its smash; Power Charge's input clears the
/// buffer and goes into dash attack; after frame 13 of a hit, up tilt goes
/// into a jump and into a dash on their inputs, and forward tilt into a dash
/// unless the additional magic cancel is marked.  Up tilt and smash cancels
/// mark the magic series.
#[verifier::rlimit(40)]
pub proof fn law_tilt_cancels(s: DollyState, f: DollyFrame)
    requires
        f.status_kind == StatusKind::AttackS3 || f.status_kind == StatusKind::AttackHi3
            || f.status_kind == StatusKind::AttackLw3,
        f.hit || f.shield_hit,
    ensures
        ({
            let t = spec_magic_series(s, f);
            let hi3 = f.motion_kind == MOTION_ATTACK_S3_S && given(s, f, Command::AttackHi3);
            let s4 = given(s, f, Command::AttackS4);
            let hi4 = given(s, f, Command::AttackHi4);
            let lw4 = given(s, f, Command::AttackLw4);
            let charge = given(s, f, Command::SpecialN2Command);
            let late_up = f.status_kind == StatusKind::AttackHi3 && f.hit && f.frame.gt(13);
            let late_forward = f.status_kind == StatusKind::AttackS3 && f.hit && f.frame.gt(13);
            let jump = late_up && !charge && given(s, f, Command::Jump);
            let dash_up = late_up && !charge && given(s, f, Command::Dash);
            let dash_forward = late_forward && !charge && given(s, f, Command::Dash)
                && !s.vars.magic_cancel_additional;
            &&& t.requests == s.requests + seq_if(hi3, to_status(StatusKind::AttackHi3, false))
                + seq_if(s4, to_status(StatusKind::AttackS4Start, true)) + seq_if(
                hi4,
                to_status(StatusKind::AttackHi4Start, true),
            ) + seq_if(lw4, to_status(StatusKind::AttackLw4Start, true)) + seq_if(
                charge,
                Request::ClearCommand,
            ) + seq_if(charge, to_status(StatusKind::AttackDash, false)) + seq_if(
                jump,
                to_status(StatusKind::JumpSquat, true),
            ) + seq_if(dash_up, to_status(StatusKind::Dash, false)) + seq_if(
                dash_forward,
                to_status(StatusKind::Dash, false),
            )
            &&& t.vars == marked_if(s.vars, hi3 || s4 || hi4 || lw4)
            &&& t.commands_cleared == (s.commands_cleared || charge)
            &&& t.super_special_enabled == s.super_special_enabled
        }),
{
    lemma_magic_series_sections(s, f);
    let a = if f.motion_kind == MOTION_ATTACK_S3_S {
        lemma_magic_cancel_requests(s, f, Command::AttackHi3, StatusKind::AttackHi3, false);
        magic_cancel_on(s, f, Command::AttackHi3, StatusKind::AttackHi3, false)
    } else {
        assert(s.requests =~= s.requests + seq_if(false, to_status(StatusKind::AttackHi3, false)));
        s
    };
    let b1 = magic_cancel_on(a, f, Command::AttackS4, StatusKind::AttackS4Start, true);
    let b2 = magic_cancel_on(b1, f, Command::AttackHi4, StatusKind::AttackHi4Start, true);
    let b3 = magic_cancel_on(b2, f, Command::AttackLw4, StatusKind::AttackLw4Start, true);
    lemma_magic_cancel_requests(a, f, Command::AttackS4, StatusKind::AttackS4Start, true);
    lemma_magic_cancel_requests(b1, f, Command::AttackHi4, StatusKind::AttackHi4Start, true);
    lemma_magic_cancel_requests(b2, f, Command::AttackLw4, StatusKind::AttackLw4Start, true);
    let b = power_charge(b3, f);
    lemma_power_charge_requests(b3, f);
    let late_up = f.status_kind == StatusKind::AttackHi3 && f.hit && f.frame.gt(13);
    let c = if late_up {
        let j = b.emit_if(b.command(f, Command::Jump), to_status(StatusKind::JumpSquat, true));
        lemma_emit_if_requests(b, b.command(f, Command::Jump), to_status(StatusKind::JumpSquat, true));
        lemma_cancel_requests(j, f, Command::Dash, StatusKind::Dash);
        cancel_on(j, f, Command::Dash, StatusKind::Dash)
    } else {
        assert(b.requests =~= b.requests + seq_if(false, to_status(StatusKind::JumpSquat, true))
            + seq_if(false, to_status(StatusKind::Dash, false)));
        b
    };
    let late_forward = f.status_kind == StatusKind::AttackS3 && f.hit && f.frame.gt(13);
    if late_forward {
        lemma_emit_if_requests(
            c,
            c.command(f, Command::Dash) && !c.vars.magic_cancel_additional,
            to_status(StatusKind::Dash, false),
        );
    } else {
        assert(c.requests =~= c.requests + seq_if(false, to_status(StatusKind::Dash, false)));
    }
}

/// A dash attack that connects, while supers are enabled, opens both
/// supers' transition terms and goes into either on its input; with supers
/// disabled it does nothing.
pub proof fn law_dash_attack_cancels(s: DollyState, f: DollyFrame)
    requires
        f.status_kind == StatusKind::AttackDash,
        f.hit || f.shield_hit,
    ensures
        ({
            let t = spec_magic_series(s, f);
            let on = s.super_special_enabled;
            &&& t.requests == s.requests + seq_if(on, Request::EnableTerm(Term::ContSuperSpecial))
                + seq_if(on, Request::EnableTerm(Term::ContSuperSpecial2)) + seq_if(
                on && f.super_special_command,
                to_status(StatusKind::DollySuperSpecial, false),
            ) + seq_if(
                on && f.super_special2_command,
                to_status(StatusKind::DollySuperSpecial2, false),
            )
            &&& t.vars == s.vars
            &&& t.commands_cleared == s.commands_cleared
            &&& t.super_special_enabled == s.super_special_enabled
        }),
{
    lemma_super_terms_requests(s);
    lemma_super_inputs_requests(super_terms(s), f);
}

/// A smash attack that connects: Power Charge's input clears the buffer and
/// goes into dash attack; the command specials' transition terms open (and
/// the supers' while enabled); then, on their inputs, Power Wave, Burn
/// Knuckle (forward), its command, Crack Shoot (backward), its command,
/// Rising Tackle, its command, Power Dunk, its command, and the supers while
/// enabled.
pub proof fn law_smash_cancels(s: DollyState, f: DollyFrame)
    requires
        f.status_kind == StatusKind::AttackS4 || f.status_kind == StatusKind::AttackHi4
            || f.status_kind == StatusKind::AttackLw4,
        f.hit || f.shield_hit,
    ensures
        ({
            let t = spec_magic_series(s, f);
            let charge = given(s, f, Command::SpecialN2Command);
            let on = s.super_special_enabled;
            let g = |c: Command| !charge && given(s, f, c);
            &&& t.requests == s.requests + seq_if(charge, Request::ClearCommand) + seq_if(
                charge,
                to_status(StatusKind::AttackDash, false),
            ) + seq_if(true, Request::EnableTerm(Term::ContSpecialSCommand)) + seq_if(
                true,
                Request::EnableTerm(Term::ContSpecialHiCommand),
            ) + seq_if(true, Request::EnableTerm(Term::ContSpecialLwCommand)) + seq_if(
                on,
                Request::EnableTerm(Term::ContSuperSpecial),
            ) + seq_if(on, Request::EnableTerm(Term::ContSuperSpecial2)) + seq_if(
                g(Command::SpecialN),
                to_status(StatusKind::SpecialN, false),
            ) + seq_if(
                g(Command::SpecialS) && f.stick_forward,
                to_status(StatusKind::SpecialS, false),
            ) + seq_if(
                g(Command::SpecialNCommand),
                to_status(StatusKind::DollySpecialSCommand, false),
            ) + seq_if(
                g(Command::SpecialS) && f.stick_backward,
                to_status(StatusKind::DollySpecialB, false),
            ) + seq_if(
                g(Command::SpecialSCommand),
                to_status(StatusKind::DollySpecialBCommand, false),
            ) + seq_if(g(Command::SpecialHi), to_status(StatusKind::SpecialHi, false)) + seq_if(
                g(Command::SpecialHi2Command),
                to_status(StatusKind::DollySpecialHiCommand, false),
            ) + seq_if(g(Command::SpecialLw), to_status(StatusKind::SpecialLw, false)) + seq_if(
                g(Command::SpecialHiCommand),
                to_status(StatusKind::DollySpecialLwCommand, false),
            ) + seq_if(on && f.super_special_command, to_status(StatusKind::DollySuperSpecial, false))
                + seq_if(
                on && f.super_special2_command,
                to_status(StatusKind::DollySuperSpecial2, false),
            )
            &&& t.vars == s.vars
            &&& t.commands_cleared == (s.commands_cleared || charge)
            &&& t.super_special_enabled == s.super_special_enabled
        }),
{
    let p = power_charge(s, f);
    lemma_power_charge_requests(s, f);
    let q = command_special_terms(p, true);
    lemma_command_special_terms_requests(p, true);
    let a = super_terms(q);
    lemma_super_terms_requests(q);
    let b1 = into_power_wave(a, f);
    lemma_into_power_wave_requests(a, f);
    let b2 = into_burn_knuckle(b1, f);
    lemma_into_burn_knuckle_requests(b1, f);
    let b3 = into_crack_shoot(b2, f);
    lemma_into_crack_shoot_requests(b2, f);
    let b4 = into_rising_tackle(b3, f);
    lemma_into_rising_tackle_requests(b3, f);
    let b = into_power_dunk(b4, f);
    lemma_into_power_dunk_requests(b4, f);
    let c = power_charge(b, f);
    lemma_power_charge_requests(b, f);
    assert(c.requests =~= b.requests);
    lemma_super_inputs_requests(c, f);
}

/// The requests of a special that hits before its own cancels: while supers
/// are enabled their transition terms, and either super on its input.
pub open spec fn special_supers(s: DollyState, f: DollyFrame) -> Seq<Request> {
    let on = s.super_special_enabled;
    s.requests + seq_if(on, Request::EnableTerm(Term::ContSuperSpecial)) + seq_if(
        on,
        Request::EnableTerm(Term::ContSuperSpecial2),
    ) + seq_if(on && f.super_special_command, to_status(StatusKind::DollySuperSpecial, false))
        + seq_if(on && f.super_special2_command, to_status(StatusKind::DollySuperSpecial2, false))
}

/// Burn Knuckle that hits: after the supers (see `special_supers`), the
/// command specials' transition terms open and, with a level of meter, it
/// goes into Crack Shoot (backward), its command, Rising Tackle, its
/// command, Power Dunk or its command on their inputs.
#[verifier::rlimit(40)]
pub proof fn law_burn_knuckle_cancels(s: DollyState, f: DollyFrame)
    requires
        f.status_kind == StatusKind::SpecialS || f.status_kind == StatusKind::DollySpecialSCommand
            || f.status_kind == StatusKind::DollySpecialFAttack,
        f.hit,
    ensures
        ({
            let t = spec_magic_series(s, f);
            let paid = f.meter_level >= 1;
            &&& t.requests == special_supers(s, f) + seq_if(
                true,
                Request::EnableTerm(Term::ContSpecialSCommand),
            ) + seq_if(true, Request::EnableTerm(Term::ContSpecialHiCommand)) + seq_if(
                true,
                Request::EnableTerm(Term::ContSpecialLwCommand),
            ) + seq_if(
                paid && given(s, f, Command::SpecialS) && f.stick_backward,
                to_status(StatusKind::DollySpecialB, false),
            ) + seq_if(
                paid && given(s, f, Command::SpecialSCommand),
                to_status(StatusKind::DollySpecialBCommand, false),
            ) + seq_if(
                paid && given(s, f, Command::SpecialHi),
                to_status(StatusKind::SpecialHi, false),
            ) + seq_if(
                paid && given(s, f, Command::SpecialHi2Command),
                to_status(StatusKind::DollySpecialHiCommand, false),
            ) + seq_if(
                paid && given(s, f, Command::SpecialLw),
                to_status(StatusKind::SpecialLw, false),
            ) + seq_if(
                paid && given(s, f, Command::SpecialHiCommand),
                to_status(StatusKind::DollySpecialLwCommand, false),
            )
            &&& t.vars == s.vars
            &&& t.commands_cleared == s.commands_cleared
            &&& t.super_special_enabled == s.super_special_enabled
        }),
{
    lemma_magic_series_sections(s, f);
    let a0 = super_terms(s);
    lemma_super_terms_requests(s);
    let a = super_inputs(a0, f);
    lemma_super_inputs_requests(a0, f);
    let x = command_special_terms(a, true);
    lemma_command_special_terms_requests(a, true);
    if f.meter_level >= 1 {
        let y1 = into_crack_shoot(x, f);
        lemma_into_crack_shoot_requests(x, f);
        let y2 = into_rising_tackle(y1, f);
        lemma_into_rising_tackle_requests(y1, f);
        lemma_into_power_dunk_requests(y2, f);
        assert(spec_special_cancels(s, f) == into_power_dunk(y2, f));
    } else {
        assert(spec_special_cancels(s, f) == x);
        assert(x.requests =~= x.requests + seq_if(false, to_status(StatusKind::DollySpecialB, false))
            + seq_if(false, to_status(StatusKind::DollySpecialBCommand, false)) + seq_if(
            false,
            to_status(StatusKind::SpecialHi, false),
        ) + seq_if(false, to_status(StatusKind::DollySpecialHiCommand, false)) + seq_if(
            false,
            to_status(StatusKind::SpecialLw, false),
        ) + seq_if(false, to_status(StatusKind::DollySpecialLwCommand, false)));
    }
}

/// Rising Tackle that hits: after the supers (see `special_supers`), the
/// side and down command terms open and, with a level of meter, it goes
/// into Power Wave, Burn Knuckle (forward), its command, Crack Shoot
/// (backward), its command, Power Dunk or its command on their inputs.
#[verifier::rlimit(40)]
pub proof fn law_rising_tackle_cancels(s: DollyState, f: DollyFrame)
    requires
        f.status_kind == StatusKind::SpecialHi || f.status_kind == StatusKind::DollySpecialHiCommand
            || f.status_kind == StatusKind::DollySpecialHiJump,
        f.hit,
    ensures
        ({
            let t = spec_magic_series(s, f);
            let paid = f.meter_level >= 1;
            &&& t.requests == special_supers(s, f) + seq_if(
                true,
                Request::EnableTerm(Term::ContSpecialSCommand),
            ) + seq_if(true, Request::EnableTerm(Term::ContSpecialLwCommand)) + seq_if(
                paid && given(s, f, Command::SpecialN),
                to_status(StatusKind::SpecialN, false),
            ) + seq_if(
                paid && given(s, f, Command::SpecialS) && f.stick_forward,
                to_status(StatusKind::SpecialS, false),
            ) + seq_if(
                paid && given(s, f, Command::SpecialNCommand),
                to_status(StatusKind::DollySpecialSCommand, false),
            ) + seq_if(
                paid && given(s, f, Command::SpecialS) && f.stick_backward,
                to_status(StatusKind::DollySpecialB, false),
            ) + seq_if(
                paid && given(s, f, Command::SpecialSCommand),
                to_status(StatusKind::DollySpecialBCommand, false),
            ) + seq_if(
                paid && given(s, f, Command::SpecialLw),
                to_status(StatusKind::SpecialLw, false),
            ) + seq_if(
                paid && given(s, f, Command::SpecialHiCommand),
                to_status(StatusKind::DollySpecialLwCommand, false),
            )
            &&& t.vars == s.vars
            &&& t.commands_cleared == s.commands_cleared
            &&& t.super_special_enabled == s.super_special_enabled
        }),
{
    lemma_magic_series_sections(s, f);
    let a0 = super_terms(s);
    lemma_super_terms_requests(s);
    let a = super_inputs(a0, f);
    lemma_super_inputs_requests(a0, f);
    let x = command_special_terms(a, false);
    lemma_command_special_terms_requests(a, false);
    assert(x.requests =~= special_supers(s, f) + seq_if(
        true,
        Request::EnableTerm(Term::ContSpecialSCommand),
    ) + seq_if(true, Request::EnableTerm(Term::ContSpecialLwCommand)));
    if f.meter_level >= 1 {
        let y1 = into_power_wave(x, f);
        lemma_into_power_wave_requests(x, f);
        let y2 = into_burn_knuckle(y1, f);
        lemma_into_burn_knuckle_requests(y1, f);
        let y3 = into_crack_shoot(y2, f);
        lemma_into_crack_shoot_requests(y2, f);
        lemma_into_power_dunk_requests(y3, f);
        assert(spec_special_cancels(s, f) == into_power_dunk(y3, f));
    } else {
        assert(spec_special_cancels(s, f) == x);
        assert(x.requests =~= x.requests + seq_if(false, to_status(StatusKind::SpecialN, false))
            + seq_if(false, to_status(StatusKind::SpecialS, false)) + seq_if(
            false,
            to_status(StatusKind::DollySpecialSCommand, false),
        ) + seq_if(false, to_status(StatusKind::DollySpecialB, false)) + seq_if(
            false,
            to_status(StatusKind::DollySpecialBCommand, false),
        ) + seq_if(false, to_status(StatusKind::SpecialLw, false)) + seq_if(
            false,
            to_status(StatusKind::DollySpecialLwCommand, false),
        ));
    }
}

/// Any other special that hits only goes into the supers (see
/// `special_supers`).
pub proof fn law_other_special_cancels(s: DollyState, f: DollyFrame)
    requires
        f.status_kind == StatusKind::DollySpecialB || f.status_kind
            == StatusKind::DollySpecialBCommand || f.status_kind == StatusKind::DollySpecialBAttack
            || f.status_kind == StatusKind::SpecialLw || f.status_kind
            == StatusKind::DollySpecialLwCommand || f.status_kind == StatusKind::DollySpecialLwAttack,
        f.hit,
    ensures
        spec_magic_series(s, f).requests == special_supers(s, f),
        spec_magic_series(s, f).vars == s.vars,
        spec_magic_series(s, f).commands_cleared == s.commands_cleared,
{
    lemma_magic_series_sections(s, f);
    lemma_super_terms_requests(s);
    lemma_super_inputs_requests(super_terms(s), f);
}

/// A special that only reaches a shield cancels into nothing.
pub proof fn law_special_shielded_no_cancel(s: DollyState, f: DollyFrame)
    requires
        f.status_kind == StatusKind::SpecialS || f.status_kind == StatusKind::DollySpecialSCommand
            || f.status_kind == StatusKind::DollySpecialFAttack || f.status_kind
            == StatusKind::DollySpecialB || f.status_kind == StatusKind::DollySpecialBCommand
            || f.status_kind == StatusKind::DollySpecialBAttack || f.status_kind
            == StatusKind::SpecialHi || f.status_kind == StatusKind::DollySpecialHiCommand
            || f.status_kind == StatusKind::DollySpecialHiJump || f.status_kind
            == StatusKind::SpecialLw || f.status_kind == StatusKind::DollySpecialLwCommand
            || f.status_kind == StatusKind::DollySpecialLwAttack,
        !f.hit,
    ensures
        spec_magic_series(s, f) == s,
{
}

/// Outside the attacks, aerials and specials that it cancels, the magic
/// series does nothing.
pub proof fn law_magic_series_only_in_attacks(s: DollyState, f: DollyFrame)
    requires
        !(f.status_kind == StatusKind::Attack || f.status_kind == StatusKind::AttackS3
            || f.status_kind == StatusKind::AttackHi3 || f.status_kind == StatusKind::AttackLw3
            || f.status_kind == StatusKind::AttackDash || f.status_kind == StatusKind::AttackS4
            || f.status_kind == StatusKind::AttackHi4 || f.status_kind == StatusKind::AttackLw4
            || f.status_kind == StatusKind::AttackAir || f.status_kind == StatusKind::SpecialS
            || f.status_kind == StatusKind::DollySpecialSCommand || f.status_kind
            == StatusKind::DollySpecialFAttack || f.status_kind == StatusKind::DollySpecialB
            || f.status_kind == StatusKind::DollySpecialBCommand || f.status_kind
            == StatusKind::DollySpecialBAttack || f.status_kind == StatusKind::SpecialHi
            || f.status_kind == StatusKind::DollySpecialHiCommand || f.status_kind
            == StatusKind::DollySpecialHiJump || f.status_kind == StatusKind::SpecialLw
            || f.status_kind == StatusKind::DollySpecialLwCommand || f.status_kind
            == StatusKind::DollySpecialLwAttack),
    ensures
        spec_magic_series(s, f) == s,
{
}


/// The final's requests: its flags, then its status.
pub open spec fn final_requests() -> Seq<Request> {
    seq![
        Request::WorkFlagOn(WorkFlag::Final),
        Request::WorkFlagOn(WorkFlag::IsDiscretionFinalUsed),
        to_status(StatusKind::Final, true),
    ]
}

/// Power Wave: after frame 21, with supers enabled, both supers' terms open
/// and either super goes on its input; with ten levels of meter Power
/// Charge's input goes into the final; on the ground a dash input dashes
/// after frame 36 when Power Wave followed a forward tilt, after frame 33
/// otherwise.  Outside Power Wave nothing happens.
pub proof fn law_power_wave(s: DollyState, f: DollyFrame)
    ensures
        ({
            let t = spec_power_wave_dash_cancel_super_cancels(s, f);
            let supers = f.frame.gt(21) && s.super_special_enabled;
            let geyser = f.meter_level >= 10 && given(s, f, Command::SpecialN2Command);
            let dash_after = if f.prev_status_kind == StatusKind::AttackS3 {
                36int
            } else {
                33int
            };
            let dash = f.frame.gt(dash_after) && f.situation_kind == Situation::Ground && given(
                s,
                f,
                Command::Dash,
            );
            &&& f.status_kind != StatusKind::SpecialN ==> t == s
            &&& f.status_kind == StatusKind::SpecialN ==> t.requests == s.requests + seq_if(
                supers,
                Request::EnableTerm(Term::ContSuperSpecial),
            ) + seq_if(supers, Request::EnableTerm(Term::ContSuperSpecial2)) + seq_if(
                supers && f.super_special_command,
                to_status(StatusKind::DollySuperSpecial, false),
            ) + seq_if(
                supers && f.super_special2_command,
                to_status(StatusKind::DollySuperSpecial2, false),
            ) + (if geyser {
                final_requests()
            } else {
                Seq::empty()
            }) + seq_if(dash, to_status(StatusKind::Dash, false))
            &&& t.vars == s.vars
            &&& t.commands_cleared == s.commands_cleared
            &&& t.super_special_enabled == s.super_special_enabled
        }),
{
    let t = spec_power_wave_dash_cancel_super_cancels(s, f);
    if f.status_kind == StatusKind::SpecialN {
        let supers = f.frame.gt(21) && s.super_special_enabled;
        let geyser = f.meter_level >= 10 && given(s, f, Command::SpecialN2Command);
        let dash_after = if f.prev_status_kind == StatusKind::AttackS3 {
            36int
        } else {
            33int
        };
        let dash = f.frame.gt(dash_after) && f.situation_kind == Situation::Ground && given(
            s,
            f,
            Command::Dash,
        );
        assert(t.requests =~= s.requests + seq_if(
            supers,
            Request::EnableTerm(Term::ContSuperSpecial),
        ) + seq_if(supers, Request::EnableTerm(Term::ContSuperSpecial2)) + seq_if(
            supers && f.super_special_command,
            to_status(StatusKind::DollySuperSpecial, false),
        ) + seq_if(
            supers && f.super_special2_command,
            to_status(StatusKind::DollySuperSpecial2, false),
        ) + (if geyser {
            final_requests()
        } else {
            Seq::empty()
        }) + seq_if(dash, to_status(StatusKind::Dash, false)));
    }
}

/// With ten levels of meter, Power Charge's input in a dash attack or any
/// special opens the final's term and goes into the final; in a super, in
/// Power Geyser's blow motion with six levels, the final's term opens and
/// the input goes into the final.  Nothing else happens.
pub proof fn law_triple_geyser_cancels(s: DollyState, f: DollyFrame)
    ensures
        ({
            let t = spec_special_super_cancels_triple_geyser(s, f);
            let st = f.status_kind;
            let special = st == StatusKind::AttackDash || st == StatusKind::SpecialS || st
                == StatusKind::DollySpecialSCommand || st == StatusKind::DollySpecialFAttack || st
                == StatusKind::DollySpecialB || st == StatusKind::DollySpecialBCommand || st
                == StatusKind::DollySpecialBAttack || st == StatusKind::SpecialHi || st
                == StatusKind::DollySpecialHiCommand || st == StatusKind::DollySpecialHiJump || st
                == StatusKind::SpecialLw || st == StatusKind::DollySpecialLwCommand || st
                == StatusKind::DollySpecialLwAttack;
            let in_super = st == StatusKind::DollySuperSpecial || st
                == StatusKind::DollySuperSpecial2 || st == StatusKind::DollySuperSpecial2Blow;
            let input = given(s, f, Command::SpecialN2Command);
            let term = seq![Request::EnableTerm(Term::Final)];
            &&& special && f.meter_level >= 10 && input ==> t.requests == s.requests + term
                + final_requests()
            &&& in_super && f.motion_kind == MOTION_SUPER_SPECIAL2_BLOW && f.meter_level >= 6
                ==> t.requests == s.requests + term + (if input {
                final_requests()
            } else {
                Seq::empty()
            })
            &&& !(special && f.meter_level >= 10 && input) && !(in_super && f.motion_kind
                == MOTION_SUPER_SPECIAL2_BLOW && f.meter_level >= 6) ==> t == s
            &&& t.vars == s.vars
            &&& t.commands_cleared == s.commands_cleared
            &&& t.super_special_enabled == s.super_special_enabled
        }),
{
    let t = spec_special_super_cancels_triple_geyser(s, f);
    let term = seq![Request::EnableTerm(Term::Final)];
    let s2 = s.emit(Request::EnableTerm(Term::Final));
    assert(s2.requests =~= s.requests + term);
    assert(triple_geyser(s2).requests =~= s.requests + term + final_requests());
    if is_super_status(f.status_kind) && f.motion_kind == MOTION_SUPER_SPECIAL2_BLOW
        && f.meter_level >= 6 {
        assert(!is_special_status(f.status_kind) && f.status_kind != StatusKind::AttackDash);
        if !given(s, f, Command::SpecialN2Command) {
            assert(t.requests =~= s.requests + term + Seq::<Request>::empty());
        }
    }
}

/// The meter's fourth level enables supers (the flag's request), below it
/// they are disabled.
pub proof fn law_meter_activation(s: DollyState, f: DollyFrame)
    ensures
        spec_super_special_meter_activation(s, f).requests == s.requests.push(
            if f.meter_level >= 4 {
                Request::WorkFlagOn(WorkFlag::EnableSuperSpecial)
            } else {
                Request::WorkFlagOff(WorkFlag::EnableSuperSpecial)
            },
        ),
        spec_super_special_meter_activation(s, f).super_special_enabled == (f.meter_level >= 4),
        spec_super_special_meter_activation(s, f).vars == s.vars,
        spec_super_special_meter_activation(s, f).commands_cleared == s.commands_cleared,
{
}

/// Guard pressed on the ground before frame 25 of Buster Wolf or Power
/// Geyser ends it into Burn Knuckle's end; nothing else happens.
pub proof fn law_cancel_supers_early(s: DollyState, f: DollyFrame)
    ensures
        spec_cancel_supers_early(s, f) == (if (f.status_kind == StatusKind::DollySuperSpecial
            || f.status_kind == StatusKind::DollySuperSpecial2) && f.frame.lt(25)
            && f.guard_pressed && f.situation_kind == Situation::Ground {
            DollyState {
                requests: s.requests.push(to_status(StatusKind::DollySpecialFEnd, false)),
                ..s
            }
        } else {
            s
        }),
{
}

/// The super cancel mark stays only in Buster Wolf, Power Geyser or its
/// blow; nothing else changes.
pub proof fn law_super_cancel_flag_off(s: DollyState, f: DollyFrame)
    ensures
        spec_super_cancel_flag_off(s, f) == (DollyState {
            vars: DollyVars {
                super_cancel: s.vars.super_cancel && (f.status_kind == StatusKind::DollySuperSpecial
                    || f.status_kind == StatusKind::DollySuperSpecial2 || f.status_kind
                    == StatusKind::DollySuperSpecial2Blow),
                ..s.vars
            },
            ..s
        }),
{
}

/// A guard trigger with grab up, dashing (either way) on the ground,
/// shields and clears the command buffer, then drops through passable
/// ground on a flick down; nothing happens otherwise.
pub proof fn law_shield_stop_run_drop(s: DollyState, f: DollyFrame)
    ensures
        spec_shield_stop_run_drop(s, f) == (if f.guard_trigger && f.catch_released
            && f.situation_kind == Situation::Ground && (f.status_kind == StatusKind::Dash
            || f.status_kind == StatusKind::DollyDashBack) {
            DollyState {
                requests: s.requests + seq![
                    to_status(StatusKind::GuardOn, true),
                    Request::ClearCommand,
                ] + seq_if(f.passable_ground && f.flick_down, to_status(StatusKind::Pass, true)),
                commands_cleared: true,
                ..s
            }
        } else {
            s
        }),
{
    let t = spec_shield_stop_run_drop(s, f);
    assert(t.requests =~= s.requests + seq![
        to_status(StatusKind::GuardOn, true),
        Request::ClearCommand,
    ] + seq_if(f.passable_ground && f.flick_down, to_status(StatusKind::Pass, true))
        || !(f.guard_trigger && f.catch_released && f.situation_kind == Situation::Ground && (
    f.status_kind == StatusKind::Dash || f.status_kind == StatusKind::DollyDashBack)));
}

/// In training mode, guard held in a taunt fills the meter; nothing else.
pub proof fn law_full_meter_training_taunt(s: DollyState, f: DollyFrame)
    ensures
        spec_full_meter_training_taunt(s, f) == (if f.training_mode && f.status_kind
            == StatusKind::Appeal && f.guard_held {
            DollyState { requests: s.requests.push(Request::AddFullMeter), ..s }
        } else {
            s
        }),
{
}

/// A down tilt's hit marks its repeat as counted; nothing else changes.
pub proof fn law_dtilt_repeat_increment(s: DollyState, f: DollyFrame)
    ensures
        spec_dtilt_repeat_increment(s, f) == (DollyState {
            vars: DollyVars {
                repeat_incremented: s.vars.repeat_incremented || (f.motion_kind
                    == MOTION_ATTACK_LW3 && f.hit),
                ..s.vars
            },
            ..s
        }),
{
}

/// An aerial Burn Knuckle start marks the air special as used; with it
/// marked, Burn Knuckle's end or attack touching ground from the air lands.
pub proof fn law_burn_knuckle_land_cancel(s: DollyState, f: DollyFrame)
    ensures
        ({
            let used = s.vars.air_special_used || (f.motion_kind == MOTION_SPECIAL_AIR_F_START
                && f.situation_kind == Situation::Air);
            let land = used && (f.status_kind == StatusKind::DollySpecialFEnd || f.status_kind
                == StatusKind::DollySpecialFAttack) && f.situation_kind == Situation::Ground
                && f.prev_situation_kind == Situation::Air;
            spec_burn_knuckle_land_cancel(s, f) == DollyState {
                requests: s.requests + seq_if(land, to_status(StatusKind::Landing, false)),
                vars: DollyVars { air_special_used: used, ..s.vars },
                ..s
            }
        }),
{
    let used = s.vars.air_special_used || (f.motion_kind == MOTION_SPECIAL_AIR_F_START
        && f.situation_kind == Situation::Air);
    let land = used && (f.status_kind == StatusKind::DollySpecialFEnd || f.status_kind
        == StatusKind::DollySpecialFAttack) && f.situation_kind == Situation::Ground
        && f.prev_situation_kind == Situation::Air;
    assert(spec_burn_knuckle_land_cancel(s, f).requests =~= s.requests + seq_if(
        land,
        to_status(StatusKind::Landing, false),
    ));
}

/// In a frame of Power Geyser with two levels of meter, whatever its
/// motion, Buster Wolf's transition term opens; on Buster Wolf's input the
/// frame goes into Buster Wolf and leaves the super cancel marked.
pub proof fn law_moveset_power_geyser_into_buster_wolf(s: DollyState, f: DollyFrame)
    requires
        f.status_kind == StatusKind::DollySuperSpecial2,
        f.meter_level >= 2,
    ensures
        appends(s, spec_moveset(s, f), Request::EnableTerm(Term::ContSuperSpecial)),
        f.super_special_command ==> appends(
            s,
            spec_moveset(s, f),
            to_status(StatusKind::DollySuperSpecial, false),
        ) && spec_moveset(s, f).vars.super_cancel,
{
    let m = spec_moveset(s, f);
    let a = spec_power_wave_dash_cancel_super_cancels(s, f);
    let b = spec_special_super_cancels_triple_geyser(a, f);
    let c = spec_super_special_meter_activation(b, f);
    let d = spec_cancel_supers_early(c, f);
    let e = spec_super_cancels(d, f);
    let g = spec_super_cancel_flag_off(e, f);
    let h = spec_shield_stop_run_drop(g, f);
    let i = spec_full_meter_training_taunt(h, f);
    lemma_kept_power_wave_dash_cancel_super_cancels(s, f);
    lemma_kept_special_super_cancels_triple_geyser(a, f);
    lemma_kept_super_special_meter_activation(b, f);
    lemma_kept_cancel_supers_early(c, f);
    lemma_kept_super_cancel_flag_off(e, f);
    lemma_steady_shield_stop_run_drop(g, f);
    lemma_steady_full_meter_training_taunt(h, f);
    lemma_steady_magic_series(i, f);
    lemma_steady_trans(g, h, i);
    lemma_steady_trans(g, i, m);
    lemma_kept_trans(e, g, m);
    lemma_kept_trans(s, a, b);
    lemma_kept_trans(s, b, c);
    lemma_kept_trans(s, c, d);
    law_super_cancels(d, f);
    law_super_cancel_flag_off(e, f);
    let n = d.requests.len() as int;
    assert(e.requests[n] == Request::EnableTerm(Term::ContSuperSpecial));
    assert(m.requests[n] == Request::EnableTerm(Term::ContSuperSpecial));
    if f.super_special_command {
        assert(e.requests[n + 1] == to_status(StatusKind::DollySuperSpecial, false));
        assert(m.requests[n + 1] == to_status(StatusKind::DollySuperSpecial, false));
    }
}

} // verus!
