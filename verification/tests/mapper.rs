use heli_link::mapper::{angle_to_duty, raw_to_duty, PI_URAD, RAW_MAX};

#[test]
fn raw_mapper_zero_is_exact() {
    assert_eq!(raw_to_duty(0, 20000), 0);
    assert_eq!(raw_to_duty(0, 1), 0);
    assert_eq!(raw_to_duty(0, 65535), 0);
}

#[test]
fn raw_mapper_max_is_exact() {
    assert_eq!(raw_to_duty(RAW_MAX, 20000), 20000);
    assert_eq!(raw_to_duty(RAW_MAX, 1), 1);
    assert_eq!(raw_to_duty(RAW_MAX, 65535), 65535);
}

#[test]
fn raw_mapper_midpoint() {
    // 32768 * 20000 / 65535 is exactly 10000 under floor division.
    assert_eq!(raw_to_duty(32768, 20000), 10000);
}

#[test]
fn raw_mapper_small_inputs_keep_precision() {
    // Multiplying before dividing: small inputs do not truncate to zero.
    assert_eq!(raw_to_duty(7, 65535), 7);
    assert!(raw_to_duty(6553, 20000) > 0);
}

#[test]
fn raw_mapper_stays_bounded() {
    for v in [0u16, 1, 100, 32767, 32768, 65534, 65535] {
        for max_duty in [0u16, 1, 3, 20000, 65535] {
            assert!(raw_to_duty(v, max_duty) <= max_duty);
        }
    }
}

#[test]
fn angle_mapper_upper_boundary_is_max_duty() {
    assert_eq!(angle_to_duty(PI_URAD, 20000), 20000);
    assert_eq!(angle_to_duty(PI_URAD, 1), 1);
}

#[test]
fn angle_mapper_lower_boundary_is_zero() {
    assert_eq!(angle_to_duty(-PI_URAD + 1, 20000), 0);
}

#[test]
fn angle_mapper_level_is_half_duty() {
    assert_eq!(angle_to_duty(0, 20000), 10000);
}

#[test]
fn angle_mapper_stays_bounded() {
    for theta in [-PI_URAD + 1, -1000000, 0, 1000000, PI_URAD] {
        for max_duty in [0u16, 1, 20000, 65535] {
            assert!(angle_to_duty(theta, max_duty) <= max_duty);
        }
    }
}

#[test]
fn angle_mapper_is_non_decreasing() {
    let thetas = [-PI_URAD + 1, -2000000, -1, 0, 1, 1570796, PI_URAD];
    let mut last = 0u16;
    for theta in thetas {
        let duty = angle_to_duty(theta, 20000);
        assert!(duty >= last);
        last = duty;
    }
}
