//! Values shared by the fighters: status and situation kinds, motion
//! hashes, and the motion frame as the move logic compares it.
use vstd::prelude::*;

verus! {

/// Whether any bit of `mask` is set in `flags` (a pad or command-category
/// flag word tested against one or more flag bits).
pub fn compare_mask(flags: i32, mask: i32) -> (r: bool)
    ensures
        r == (flags & mask != 0),
{
    flags & mask != 0
}

/// The situation a fighter is in.
#[derive(Clone, Copy, Debug, PartialEq, Eq, Structural)]
pub enum Situation {
    Ground,
    Air,
    /// Any other situation (on a ledge, none).
    Other,
}

/// The status kinds that the move logic tests for or requests.  Those that
/// belong to one fighter carry its name; every status that the logic does
/// not name is `Other`.
#[derive(Clone, Copy, Debug, PartialEq, Eq, Structural)]
pub enum StatusKind {
    Attack,
    AttackDash,
    AttackS3,
    AttackHi3,
    AttackLw3,
    AttackS4,
    AttackHi4,
    AttackLw4,
    AttackS4Start,
    AttackHi4Start,
    AttackLw4Start,
    AttackAir,
    SpecialN,
    SpecialS,
    SpecialHi,
    SpecialLw,
    Final,
    Dash,
    Run,
    RunBrake,
    Squat,
    SquatWait,
    JumpSquat,
    Jump,
    Fall,
    Landing,
    LandingLight,
    WallJump,
    GuardOn,
    Pass,
    Appeal,
    Dead,
    Rebirth,
    Win,
    Lose,
    Entry,
    DollySuperSpecial,
    DollySuperSpecial2,
    DollySuperSpecial2Blow,
    DollySpecialSCommand,
    DollySpecialFAttack,
    DollySpecialFEnd,
    DollySpecialB,
    DollySpecialBCommand,
    DollySpecialBAttack,
    DollySpecialHiCommand,
    DollySpecialHiJump,
    DollySpecialLwCommand,
    DollySpecialLwAttack,
    DollyDashBack,
    SamusSpecialS1G,
    SamusSpecialS1A,
    SamusSpecialS2G,
    SamusSpecialS2A,
    SamusSpecialNH,
    SamusSpecialNF,
    SamusSpecialNC,
    SamusSpecialGroundLw,
    SamusSpecialAirLw,
    SamusBombJumpG,
    SamusBombJumpA,
    Other,
}

/// A motion frame, as the move logic sees it: it is only ever compared with
/// whole frame numbers.  `whole` is the frame rounded down; `fractional`
/// says that the frame lies strictly between `whole` and `whole + 1`.
#[derive(Clone, Copy, Debug, PartialEq, Eq, Structural)]
pub struct FrameTime {
    pub whole: i32,
    pub fractional: bool,
}

impl FrameTime {
    /// Twice the frame, rounded to the nearest odd number when the frame is
    /// not whole: it orders the frame against every whole number `n` as the
    /// frame itself is ordered against `n` (compare it with `2 * n`).
    pub open spec fn half_steps(self) -> int {
        2 * self.whole + if self.fractional { 1int } else { 0int }
    }

    /// The frame is later than frame `n`.
    pub open spec fn gt(self, n: int) -> bool {
        self.half_steps() > 2 * n
    }

    /// The frame is frame `n` or later.
    pub open spec fn ge(self, n: int) -> bool {
        self.half_steps() >= 2 * n
    }

    /// The frame is earlier than frame `n`.
    pub open spec fn lt(self, n: int) -> bool {
        self.half_steps() < 2 * n
    }

    /// The frame is frame `n` or earlier.
    pub open spec fn le(self, n: int) -> bool {
        self.half_steps() <= 2 * n
    }

    /// A whole frame number.
    pub fn at(n: i32) -> (r: FrameTime)
        ensures
            r.half_steps() == 2 * n,
            r.whole == n,
            !r.fractional,
    {
        FrameTime { whole: n, fractional: false }
    }

    pub fn is_gt(&self, n: i32) -> (r: bool)
        ensures
            r == self.gt(n as int),
    {
        self.whole > n || (self.whole == n && self.fractional)
    }

    pub fn is_ge(&self, n: i32) -> (r: bool)
        ensures
            r == self.ge(n as int),
    {
        self.whole >= n
    }

    pub fn is_lt(&self, n: i32) -> (r: bool)
        ensures
            r == self.lt(n as int),
    {
        self.whole < n
    }

    pub fn is_le(&self, n: i32) -> (r: bool)
        ensures
            r == self.le(n as int),
    {
        self.whole < n || (self.whole == n && !self.fractional)
    }
}

/// Motion hashes: the length of the motion's name in the upper bits and the
/// CRC-32 of the name in the lower 32 bits.
/// `attack_13`
pub const MOTION_ATTACK_13: u64 = 0x9725c4452;

/// `attack_s3_s`
pub const MOTION_ATTACK_S3_S: u64 = 0xb7dd72b57;

/// `attack_lw3`
pub const MOTION_ATTACK_LW3: u64 = 0xa18b4d5e5;

/// `attack_air_n`
pub const MOTION_ATTACK_AIR_N: u64 = 0xc3a4e2597;

/// `attack_air_f`
pub const MOTION_ATTACK_AIR_F: u64 = 0xc3495ada5;

/// `attack_air_b`
pub const MOTION_ATTACK_AIR_B: u64 = 0xc33f869bc;

/// `attack_air_hi`
pub const MOTION_ATTACK_AIR_HI: u64 = 0xdde67d935;

/// `attack_air_lw`
pub const MOTION_ATTACK_AIR_LW: u64 = 0xd40042152;

/// `attack_dash`
pub const MOTION_ATTACK_DASH: u64 = 0xb6c751ced;

/// `special_air_f_start`
pub const MOTION_SPECIAL_AIR_F_START: u64 = 0x13021c6f50;

/// `super_special2_blow`
pub const MOTION_SUPER_SPECIAL2_BLOW: u64 = 0x13434c5490;

/// `special_lw`
pub const MOTION_SPECIAL_LW: u64 = 0xab6928cf2;

/// `special_air_lw`
pub const MOTION_SPECIAL_AIR_LW: u64 = 0xe46c0e666;

/// `special_air_lw_shinespark`
pub const MOTION_SPECIAL_AIR_LW_SHINESPARK: u64 = 0x19b88946b7;

} // verus!
