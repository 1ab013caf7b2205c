use led_cube::apa106led::Apa106Led;
use led_cube::patterns::christmas_puke::ChristmasPuke;
use led_cube::patterns::police::Police;
use led_cube::patterns::rainbow::Rainbow;
use led_cube::patterns::slices::{Direction, Slices};
use led_cube::patterns::slow_rain::SlowRain;
use led_cube::patterns::Pattern;
use led_cube::wave::{sin_scaled, HALF_TURN, THIRD_TURN, TURN};

#[test]
fn rainbow_spatial_phase_offset() {
    let mut r = Rainbow::default();
    let p0 = r.pixel_at(0, 0);
    let p32 = r.pixel_at(32, 0);
    assert_ne!(p0, p32);
    // Index 0 sits at the zero crossing of the red wave, index 32 a
    // quarter turn later at its peak.
    assert_eq!(p0.red, 127);
    assert_eq!(p32.red, 254);
}

#[test]
fn rainbow_cycles() {
    let r = Rainbow::default();
    assert_eq!(r.completed_cycles(999), 0);
    assert_eq!(r.completed_cycles(1000), 1);
    assert_eq!(r.completed_cycles(3000), 3);
}

#[test]
fn christmas_puke_wheel_positions() {
    let mut p = ChristmasPuke::default();
    assert_eq!(
        p.pixel_at(0, 0),
        Apa106Led {
            red: 255,
            green: 0,
            blue: 0
        }
    );
    // Half way through the cycle the wheel position is 127.
    assert_eq!(
        p.pixel_at(0, 2000),
        Apa106Led {
            red: 126,
            green: 255,
            blue: 126
        }
    );
    assert_eq!(p.completed_cycles(8000), 2);
    assert_eq!(p.completed_cycles(3999), 0);
}

#[test]
fn police_alternates() {
    let mut p = Police::default();
    assert_eq!(
        p.pixel_at(5, 0),
        Apa106Led {
            red: 255,
            green: 0,
            blue: 0
        }
    );
    assert_eq!(
        p.pixel_at(5, 500),
        Apa106Led {
            red: 0,
            green: 0,
            blue: 255
        }
    );
    assert_eq!(p.completed_cycles(1000), 1);
}

#[test]
fn slices_fades_active_slice() {
    let mut s = Slices::default();

    // At the start nothing is lit yet.
    let dark = s.pixel_at(0, 0);
    assert_eq!(
        dark,
        Apa106Led {
            red: 0,
            green: 0,
            blue: 0
        }
    );

    // Just before the first threshold the first z-slice is nearly fully
    // lit in the Z axis colour (white), while a voxel one layer up stays
    // dark.
    let mut s = Slices::default();
    let bright = s.pixel_at(0, 499);
    assert_eq!(
        bright,
        Apa106Led {
            red: 254,
            green: 254,
            blue: 254
        }
    );
    // Index 31 is the voxel at (0, 0, 1): one layer above the active
    // slice.
    let above = s.pixel_at(31, 499);
    assert_eq!(
        above,
        Apa106Led {
            red: 0,
            green: 0,
            blue: 0
        }
    );

    assert_eq!(s.completed_cycles(7499), 0);
    assert_eq!(s.completed_cycles(7500), 1);
}

#[test]
fn slices_direction_rotation() {
    assert_eq!(Direction::X.next_dir(), Direction::Y);
    assert_eq!(Direction::Y.next_dir(), Direction::Z);
    assert_eq!(Direction::Z.next_dir(), Direction::X);
    assert_eq!(
        Direction::X.colour(),
        Apa106Led {
            red: 255,
            green: 0,
            blue: 0
        }
    );
}

#[test]
fn slow_rain_reproducible_from_seed() {
    let mut a = SlowRain::default();
    let mut b = SlowRain::default();

    for &t in &[0u32, 250, 500, 1000, 1999] {
        for idx in 0..64 {
            assert_eq!(a.pixel_at(idx, t), b.pixel_at(idx, t), "idx {} t {}", idx, t);
        }
    }

    assert_eq!(a.completed_cycles(4000), 2);
}

#[test]
fn pattern_frame_has_64_pixels() {
    let mut p = Pattern::Rainbow(Rainbow::default());
    let v = p.frame(123);
    assert_eq!(v.len(), 64);

    let mut r = Rainbow::default();
    for (idx, c) in v.iter().enumerate() {
        assert_eq!(*c, r.pixel_at(idx, 123));
    }
}

#[test]
fn wave_key_points() {
    assert_eq!(TURN, 1536);
    assert_eq!(HALF_TURN, 768);
    assert_eq!(THIRD_TURN, 512);

    // Zero crossing, peak, zero crossing, trough, and wrap-around.
    assert_eq!(sin_scaled(0), 127);
    assert_eq!(sin_scaled(384), 254);
    assert_eq!(sin_scaled(768), 127);
    assert_eq!(sin_scaled(1152), 0);
    assert_eq!(sin_scaled(1536), 127);
    assert_eq!(sin_scaled(1536 + 384), 254);
}
