use led_cube::apa106led::{Apa106Led, OFF_BYTE, ON_BYTE};
use led_cube::cube::Cube;
use led_cube::encoder::{encode_frame, FRAME_BYTES};
use led_cube::patterns::rainbow::Rainbow;
use led_cube::patterns::slow_rain::SlowRain;
use led_cube::patterns::Pattern;
use led_cube::ratio::Ratio;
use led_cube::state::State;

#[test]
fn steady_tick_renders_active_pattern() {
    let mut state = State::new(Pattern::Rainbow(Rainbow::default()));
    let mut cube = Cube::new();

    state.drive(0, &mut cube);
    assert!(!state.is_transitioning());

    let mut reference = Rainbow::default();
    for idx in 0..64 {
        assert_eq!(cube.get_at_index(idx), reference.pixel_at(idx, 0));
    }
}

#[test]
fn third_cycle_starts_cross_fade_to_rain() {
    let mut state = State::new(Pattern::Rainbow(Rainbow::default()));
    let mut cube = Cube::new();

    state.drive(0, &mut cube);
    state.drive(2999, &mut cube);
    assert!(!state.is_transitioning());

    // The rainbow's third cycle completes at 3000 ms; the director queues
    // the cross fade towards the rain pattern.
    state.drive(3000, &mut cube);
    assert!(state.is_transitioning());

    // Remember the frame the transition starts from.
    let mut before = Vec::new();
    for idx in 0..64 {
        before.push(cube.get_at_index(idx));
    }

    // 100 ms into the cross fade: every pixel is the interpolation of the
    // previous frame towards the rain pattern's own frame at the
    // transition-local time, 100 over the 4000 ms fade.
    state.drive(3100, &mut cube);
    assert!(state.is_transitioning());

    let mut rain = SlowRain::default();
    for idx in 0..64 {
        let rain_pixel = rain.pixel_at(idx, 100);
        let expected = before[idx].lerp(rain_pixel, Ratio::new(100, 4000));
        assert_eq!(cube.get_at_index(idx), expected, "index {}", idx);
    }
}

#[test]
fn completed_transition_commits_next_pattern() {
    let mut state = State::new(Pattern::Rainbow(Rainbow::default()));
    let mut cube = Cube::new();

    state.drive(3000, &mut cube);
    assert!(state.is_transitioning());

    // Strictly past the 4000 ms cross fade the queued pattern is
    // committed and the transition cleared.
    state.drive(7001, &mut cube);
    assert!(!state.is_transitioning());
}

#[test]
fn frame_encoding_single_red_pixel() {
    let mut cube = Cube::new();
    cube.fill(Apa106Led {
        red: 0,
        green: 0,
        blue: 0,
    });
    cube.set_at_index(
        0,
        Apa106Led {
            red: 255,
            green: 0,
            blue: 0,
        },
    );

    let data = encode_frame(&cube);
    assert_eq!(data.len(), FRAME_BYTES);
    assert_eq!(data.len(), 64 * 24 + 1);

    // Red = 11111111: eight ON bytes, most significant bit first, then
    // sixteen OFF bytes for green and blue.
    for j in 0..8 {
        assert_eq!(data[j], ON_BYTE, "byte {}", j);
    }
    for j in 8..24 {
        assert_eq!(data[j], OFF_BYTE, "byte {}", j);
    }

    // Every other pixel is fully off.
    for j in 24..(64 * 24) {
        assert_eq!(data[j], OFF_BYTE, "byte {}", j);
    }

    // The trailing byte forces the data line low after transmission.
    assert_eq!(data[64 * 24], 0);
}

#[test]
fn encoded_frame_reflects_cube_order() {
    let mut cube = Cube::new();
    cube.fill(Apa106Led {
        red: 0,
        green: 0,
        blue: 0,
    });
    cube.set_at_index(
        5,
        Apa106Led {
            red: 0,
            green: 255,
            blue: 0,
        },
    );

    let data = encode_frame(&cube);
    for j in 0..8 {
        assert_eq!(data[5 * 24 + j], OFF_BYTE);
        assert_eq!(data[5 * 24 + 8 + j], ON_BYTE);
        assert_eq!(data[5 * 24 + 16 + j], OFF_BYTE);
    }
}

#[test]
fn scene_table_runs_the_full_cycle() {
    let mut state = State::new(Pattern::Rainbow(Rainbow::default()));
    let mut cube = Cube::new();

    // Rainbow (1000 ms cycles): third cycle at 3000 queues the 4000 ms
    // cross fade to the rain pattern.
    state.drive(3000, &mut cube);
    assert!(state.is_transitioning());
    state.drive(5000, &mut cube);
    assert!(state.is_transitioning());
    state.drive(7001, &mut cube);
    assert!(!state.is_transitioning());

    // Rain (2000 ms drops) started its clock with the cross fade at
    // 3000; its third cycle at 9000 queues the 2000 ms fade to black.
    state.drive(9000, &mut cube);
    assert!(state.is_transitioning());
    state.drive(11001, &mut cube);
    assert!(!state.is_transitioning());

    // Slices (7500 ms sweeps) was held at its first frame until the fade
    // to black finished at 11001; its second sweep at 26001 queues the
    // cross fade to the christmas cycle.
    state.drive(26001, &mut cube);
    assert!(state.is_transitioning());
    state.drive(30002, &mut cube);
    assert!(!state.is_transitioning());

    // The christmas cycle (4000 ms) started underneath that cross fade
    // at 26001; its third cycle at 38001 queues the cross fade back to
    // the rainbow.
    state.drive(38001, &mut cube);
    assert!(state.is_transitioning());
}
