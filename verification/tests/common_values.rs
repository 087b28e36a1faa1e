use fighters::common::{compare_mask, FrameTime, MOTION_ATTACK_13, MOTION_ATTACK_AIR_B,
    MOTION_ATTACK_AIR_F, MOTION_ATTACK_AIR_HI, MOTION_ATTACK_AIR_LW, MOTION_ATTACK_AIR_N,
    MOTION_ATTACK_DASH, MOTION_ATTACK_LW3, MOTION_ATTACK_S3_S, MOTION_SPECIAL_AIR_F_START,
    MOTION_SPECIAL_AIR_LW, MOTION_SPECIAL_AIR_LW_SHINESPARK, MOTION_SPECIAL_LW,
    MOTION_SUPER_SPECIAL2_BLOW};

fn crc32(bytes: &[u8]) -> u32 {
    let mut value = !0u32;
    for &b in bytes {
        value ^= b as u32;
        for _ in 0..8 {
            if value & 1 != 0 {
                value = (value >> 1) ^ 0xEDB8_8320;
            } else {
                value >>= 1;
            }
        }
    }
    !value
}

fn hash40(name: &str) -> u64 {
    ((name.len() as u64) << 32) + crc32(name.as_bytes()) as u64
}

#[test]
fn motion_hashes_match_their_names() {
    assert_eq!(MOTION_ATTACK_13, hash40("attack_13"));
    assert_eq!(MOTION_ATTACK_S3_S, hash40("attack_s3_s"));
    assert_eq!(MOTION_ATTACK_LW3, hash40("attack_lw3"));
    assert_eq!(MOTION_ATTACK_AIR_N, hash40("attack_air_n"));
    assert_eq!(MOTION_ATTACK_AIR_F, hash40("attack_air_f"));
    assert_eq!(MOTION_ATTACK_AIR_B, hash40("attack_air_b"));
    assert_eq!(MOTION_ATTACK_AIR_HI, hash40("attack_air_hi"));
    assert_eq!(MOTION_ATTACK_AIR_LW, hash40("attack_air_lw"));
    assert_eq!(MOTION_ATTACK_DASH, hash40("attack_dash"));
    assert_eq!(MOTION_SPECIAL_AIR_F_START, hash40("special_air_f_start"));
    assert_eq!(MOTION_SUPER_SPECIAL2_BLOW, hash40("super_special2_blow"));
    assert_eq!(MOTION_SPECIAL_LW, hash40("special_lw"));
    assert_eq!(MOTION_SPECIAL_AIR_LW, hash40("special_air_lw"));
    assert_eq!(MOTION_SPECIAL_AIR_LW_SHINESPARK, hash40("special_air_lw_shinespark"));
}

#[test]
fn compare_mask_tests_any_bit() {
    assert!(compare_mask(0b1010, 0b0010));
    assert!(compare_mask(0b1010, 0b0110));
    assert!(!compare_mask(0b1010, 0b0101));
    assert!(!compare_mask(0, -1));
    assert!(compare_mask(i32::MIN, i32::MIN));
}

#[test]
fn frame_comparisons_against_whole_frames() {
    let at21 = FrameTime::at(21);
    let past21 = FrameTime { whole: 21, fractional: true };
    assert!(!at21.is_gt(21));
    assert!(past21.is_gt(21));
    assert!(at21.is_ge(21));
    assert!(past21.is_ge(21));
    assert!(!past21.is_ge(22));
    assert!(at21.is_le(21));
    assert!(!past21.is_le(21));
    assert!(past21.is_le(22));
    assert!(!at21.is_lt(21));
    assert!(past21.is_lt(22));
    assert!(!past21.is_lt(21));
    let before = FrameTime { whole: -1, fractional: true };
    assert!(before.is_lt(0));
    assert!(before.is_gt(-1));
}
