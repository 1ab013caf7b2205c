use led_cube::apa106led::Apa106Led;
use led_cube::transitions::{CrossFade, FadeFromBlack, FadeToBlack, Transition};

#[test]
fn completion_is_strictly_after_duration() {
    let t = Transition::FadeToBlack(FadeToBlack::default());
    assert_eq!(t.duration(), 2000);
    assert!(!t.is_complete(2000));
    assert!(t.is_complete(2001));

    let t = Transition::CrossFade(CrossFade::default());
    assert_eq!(t.duration(), 4000);
    assert!(!t.is_complete(4000));
    assert!(t.is_complete(4001));
}

#[test]
fn next_start_offsets() {
    // FadeToBlack holds the incoming pattern at its first frame until
    // the fade is done; the others let it animate underneath.
    assert_eq!(
        Transition::FadeToBlack(FadeToBlack::default()).next_start_offset(),
        2000
    );
    assert_eq!(
        Transition::FadeFromBlack(FadeFromBlack::default()).next_start_offset(),
        0
    );
    assert_eq!(
        Transition::CrossFade(CrossFade::default()).next_start_offset(),
        0
    );
}

#[test]
fn cross_fade_midpoint() {
    let t = Transition::CrossFade(CrossFade::default());
    let current = Apa106Led {
        red: 0,
        green: 0,
        blue: 0,
    };
    let next = Apa106Led {
        red: 200,
        green: 0,
        blue: 0,
    };
    assert_eq!(
        t.transition_pixel(2000, current, next),
        Apa106Led {
            red: 100,
            green: 0,
            blue: 0
        }
    );
}

#[test]
fn cross_fade_clamps_past_completion() {
    let t = Transition::CrossFade(CrossFade::default());
    let current = Apa106Led {
        red: 10,
        green: 20,
        blue: 30,
    };
    let next = Apa106Led {
        red: 200,
        green: 100,
        blue: 0,
    };
    assert_eq!(t.transition_pixel(9999, current, next), next);
}

#[test]
fn fade_to_black_scales_current() {
    let t = Transition::FadeToBlack(FadeToBlack::default());
    let current = Apa106Led {
        red: 200,
        green: 100,
        blue: 50,
    };
    let ignored = Apa106Led {
        red: 255,
        green: 255,
        blue: 255,
    };
    assert_eq!(
        t.transition_pixel(1000, current, ignored),
        Apa106Led {
            red: 100,
            green: 50,
            blue: 25
        }
    );
    assert_eq!(
        t.transition_pixel(2000, current, ignored),
        Apa106Led {
            red: 0,
            green: 0,
            blue: 0
        }
    );
}

#[test]
fn fade_from_black_scales_next() {
    let t = Transition::FadeFromBlack(FadeFromBlack::default());
    let ignored = Apa106Led {
        red: 255,
        green: 255,
        blue: 255,
    };
    let next = Apa106Led {
        red: 200,
        green: 100,
        blue: 40,
    };
    assert_eq!(
        t.transition_pixel(250, ignored, next),
        Apa106Led {
            red: 50,
            green: 25,
            blue: 10
        }
    );
    assert_eq!(t.transition_pixel(1000, ignored, next), next);
}
