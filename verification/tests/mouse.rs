use usbip_jiggler::hid::mouse::{
    jiggle_cycle, jiggle_fits, jiggle_reports, random_displacement, signed_displacement, MouseReport,
    JIGGLE_INTERVAL_SECS, MAX_DISPLACEMENT,
};

fn signed(b: u8) -> i32 {
    b as i8 as i32
}

#[test]
fn zero_report_is_all_zero() {
    let r = MouseReport::zero();
    assert_eq!(r.buttons, 0);
    assert_eq!(r.x, 0);
    assert_eq!(r.y, 0);
    assert_eq!(r.wheel, 0);
    assert_eq!(MouseReport::zero().to_bytes(), [0, 0, 0, 0]);
}

#[test]
fn to_bytes_is_twos_complement() {
    let r = MouseReport { buttons: 0b101, x: -1, y: 5, wheel: -127 };
    assert_eq!(r.to_bytes(), [5, 0xff, 5, 0x81]);
    let r = MouseReport { buttons: 0, x: 127, y: -128, wheel: 0 };
    assert_eq!(r.to_bytes(), [0, 0x7f, 0x80, 0]);
}

#[test]
fn signed_displacement_applies_the_sign() {
    assert_eq!(signed_displacement(7, true), 7);
    assert_eq!(signed_displacement(7, false), -7);
    assert_eq!(signed_displacement(20, false), -20);
    assert_eq!(signed_displacement(-127, false), 127);
}

#[test]
fn random_displacement_stays_in_range_and_takes_both_signs() {
    let mut saw_positive = false;
    let mut saw_negative = false;
    let mut saw_extremes = [false; 2];
    for _ in 0..5000 {
        let d = random_displacement();
        assert!(d != 0);
        assert!(d.abs() >= 1 && d.abs() <= MAX_DISPLACEMENT);
        if d > 0 {
            saw_positive = true;
        } else {
            saw_negative = true;
        }
        if d.abs() == 1 {
            saw_extremes[0] = true;
        }
        if d.abs() == 20 {
            saw_extremes[1] = true;
        }
    }
    assert!(saw_positive && saw_negative);
    assert!(saw_extremes[0] && saw_extremes[1]);
}

#[test]
fn jiggle_reports_move_and_return() {
    let (t1, t2) = jiggle_reports(3, -20);
    assert_eq!(t1, [0, 3, 0xec, 0]);
    assert_eq!(t2, [0, 0xfd, 20, 0]);
}

#[test]
fn jiggle_is_net_zero_on_concrete_values() {
    for dx in [-20i8, -7, -1, 1, 9, 20] {
        for dy in [-20i8, -3, -1, 1, 12, 20] {
            let (t1, t2) = jiggle_reports(dx, dy);
            assert_eq!(signed(t1[1]) + signed(t2[1]), 0);
            assert_eq!(signed(t1[2]) + signed(t2[2]), 0);
            assert_eq!(t1[0], 0);
            assert_eq!(t2[0], 0);
            assert_eq!(t1[3], 0);
            assert_eq!(t2[3], 0);
        }
    }
}

#[test]
fn jiggle_cycle_is_a_random_net_zero_pair() {
    for _ in 0..200 {
        let (t1, t2) = jiggle_cycle();
        let (dx, dy) = (signed(t1[1]), signed(t1[2]));
        assert!(dx.abs() >= 1 && dx.abs() <= 20);
        assert!(dy.abs() >= 1 && dy.abs() <= 20);
        assert_eq!(signed(t2[1]), -dx);
        assert_eq!(signed(t2[2]), -dy);
        assert_eq!([t1[0], t1[3], t2[0], t2[3]], [0, 0, 0, 0]);
    }
}

#[test]
fn jiggle_interval_is_thirty_seconds() {
    assert_eq!(JIGGLE_INTERVAL_SECS, 30);
}

#[test]
fn jiggle_is_queued_whole_or_not_at_all() {
    assert!(!jiggle_fits(0));
    assert!(!jiggle_fits(1));
    assert!(jiggle_fits(2));
    assert!(jiggle_fits(4));
}
