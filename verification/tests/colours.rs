use led_cube::apa106led::{bit_is_set, christmas_wheel, Apa106Led, OFF_BYTE, ON_BYTE};
use led_cube::colour_functions;
use led_cube::ratio::Ratio;

#[test]
fn apa106led_fade_full() {
    assert_eq!(
        Apa106Led {
            red: 255,
            green: 255,
            blue: 255
        }
        .fade(Ratio::zero()),
        Apa106Led {
            red: 0,
            green: 0,
            blue: 0
        }
    );

    assert_eq!(
        Apa106Led {
            red: 255,
            green: 255,
            blue: 255
        }
        .fade(Ratio::one()),
        Apa106Led {
            red: 255,
            green: 255,
            blue: 255
        }
    );
}

#[test]
fn lerping() {
    let white = Apa106Led {
        red: 255,
        green: 255,
        blue: 255,
    };

    let off = Apa106Led {
        red: 0,
        green: 0,
        blue: 0,
    };

    assert_eq!(white.lerp(off, Ratio::zero()), white);

    assert_eq!(white.lerp(off, Ratio::one()), off);

    assert_eq!(
        white.lerp(off, Ratio::new(1, 2)),
        Apa106Led {
            red: 127,
            green: 127,
            blue: 127
        }
    );
}

#[test]
fn colour_functions_fade_full() {
    assert_eq!(
        colour_functions::fade(
            Apa106Led {
                red: 255,
                green: 255,
                blue: 255
            },
            Ratio::zero(),
        ),
        Apa106Led {
            red: 0,
            green: 0,
            blue: 0
        }
    );

    assert_eq!(
        colour_functions::fade(
            Apa106Led {
                red: 255,
                green: 255,
                blue: 255
            },
            Ratio::one(),
        ),
        Apa106Led {
            red: 255,
            green: 255,
            blue: 255
        }
    );
}

#[test]
fn fade_truncates() {
    let c = Apa106Led {
        red: 100,
        green: 200,
        blue: 50,
    };
    assert_eq!(
        c.fade(Ratio::new(1, 3)),
        Apa106Led {
            red: 33,
            green: 66,
            blue: 16
        }
    );
}

#[test]
fn lerp_midpoint_of_elapsed_ratio() {
    let a = Apa106Led {
        red: 0,
        green: 0,
        blue: 0,
    };
    let b = Apa106Led {
        red: 200,
        green: 0,
        blue: 0,
    };
    assert_eq!(
        a.lerp(b, Ratio::new(2000, 4000)),
        Apa106Led {
            red: 100,
            green: 0,
            blue: 0
        }
    );
}

#[test]
fn saturating_add_saturates() {
    let a = Apa106Led {
        red: 250,
        green: 0,
        blue: 0,
    };
    let b = Apa106Led {
        red: 10,
        green: 0,
        blue: 0,
    };
    assert_eq!(
        a.saturating_add(b),
        Apa106Led {
            red: 255,
            green: 0,
            blue: 0
        }
    );
}

#[test]
fn ratio_of_elapsed_clamps() {
    let r = Ratio::of_elapsed(5000, 4000);
    assert_eq!(r.num, 4000);
    assert_eq!(r.den, 4000);

    let r = Ratio::of_elapsed(1000, 4000);
    assert_eq!(r.num, 1000);

    let c = Ratio::new(1000, 4000).complement();
    assert_eq!(c.num, 3000);
    assert_eq!(c.den, 4000);
}

#[test]
fn christmas_wheel_arcs() {
    assert_eq!(
        christmas_wheel(0),
        Apa106Led {
            red: 255,
            green: 0,
            blue: 0
        }
    );
    assert_eq!(
        christmas_wheel(84),
        Apa106Led {
            red: 3,
            green: 252,
            blue: 0
        }
    );
    assert_eq!(
        christmas_wheel(85),
        Apa106Led {
            red: 0,
            green: 255,
            blue: 0
        }
    );
    assert_eq!(
        christmas_wheel(170),
        Apa106Led {
            red: 255,
            green: 255,
            blue: 255
        }
    );
    assert_eq!(christmas_wheel(200), colour_functions::christmas_wheel(200));
}

#[test]
fn rgb_wheel_arcs() {
    assert_eq!(
        colour_functions::rgb_wheel(0),
        Apa106Led {
            red: 0,
            green: 255,
            blue: 0
        }
    );
    assert_eq!(
        colour_functions::rgb_wheel(85),
        Apa106Led {
            red: 255,
            green: 0,
            blue: 0
        }
    );
    assert_eq!(
        colour_functions::rgb_wheel(170),
        Apa106Led {
            red: 0,
            green: 0,
            blue: 255
        }
    );
}

#[test]
fn bit_probe() {
    assert!(bit_is_set(0b1000_0001, 0));
    assert!(bit_is_set(0b1000_0001, 7));
    assert!(!bit_is_set(0b1000_0001, 3));
}

#[test]
fn bitbang_data_red_pixel() {
    let red = Apa106Led {
        red: 255,
        green: 0,
        blue: 0,
    };
    let raw = red.as_bitbang_data();
    assert_eq!(raw.len(), 24);
    for byte in raw.iter().take(8) {
        assert_eq!(*byte, ON_BYTE);
    }
    for byte in raw.iter().skip(8) {
        assert_eq!(*byte, OFF_BYTE);
    }
}

#[test]
fn bitbang_data_msb_first() {
    let c = Apa106Led {
        red: 0,
        green: 0b1000_0001,
        blue: 0,
    };
    let raw = c.as_bitbang_data();
    // Green occupies bytes 8..16, most significant bit first.
    assert_eq!(raw[8], ON_BYTE);
    assert_eq!(raw[15], ON_BYTE);
    for j in 9..15 {
        assert_eq!(raw[j], OFF_BYTE);
    }
    for j in 0..8 {
        assert_eq!(raw[j], OFF_BYTE);
    }
    for j in 16..24 {
        assert_eq!(raw[j], OFF_BYTE);
    }
}
