use otm8009a::otm8009a::{frame_rate_value, madctr_value, window_value};
use otm8009a::{ColorMap, FrameRate, Mode, Otm8009A, Otm8009AConfig, Session, Step};

fn short(reg: u8, data: u8) -> Step {
    Step::ShortWrite { reg, data }
}

fn long(cmd: u8, buf: &[u8]) -> Step {
    Step::LongWrite { cmd, buf: buf.to_vec() }
}

fn config(frame_rate: FrameRate, mode: Mode, color_map: ColorMap, cols: u16, rows: u16) -> Otm8009AConfig {
    Otm8009AConfig { frame_rate, mode, color_map, cols, rows }
}

fn landscape_800x480() -> Otm8009AConfig {
    config(FrameRate::_60Hz, Mode::Landscape, ColorMap::Rgb, 800, 480)
}

/// Runs `session` against a transport that rejects the step with index
/// `fail_at` (counted from 0) with that index as its error; returns the steps
/// handed out and the result.
fn run(mut session: Session<usize>, fail_at: Option<usize>) -> (Vec<Step>, Result<(), usize>) {
    let mut issued = Vec::new();
    while let Some(step) = session.pending() {
        issued.push(step.clone());
        let k = issued.len() - 1;
        let outcome = if Some(k) == fail_at { Err(k) } else { Ok(()) };
        session.complete(outcome);
    }
    (issued, session.finish())
}

fn golden_trace() -> Vec<Step> {
    vec![
        short(0x00, 0x00),
        long(0xff, &[0x80, 0x09, 0x01]),
        short(0x00, 0x80),
        long(0xff, &[0x80, 0x09]),
        short(0x00, 0x80),
        short(0xc4, 0x30),
        Step::Delay { ms: 10 },
        short(0x00, 0x8a),
        short(0xc4, 0x40),
        Step::Delay { ms: 10 },
        short(0x00, 0xb1),
        short(0xc5, 0xa9),
        short(0x00, 0x91),
        short(0xc5, 0x34),
        short(0x00, 0xb4),
        short(0xc0, 0x50),
        short(0x00, 0x00),
        short(0xd9, 0x4e),
        short(0x00, 0x81),
        short(0xc1, 0x55),
        short(0x00, 0xa1),
        short(0xc1, 0x08),
        short(0x00, 0x92),
        short(0xc5, 0x01),
        short(0x00, 0x95),
        short(0xc5, 0x34),
        short(0x00, 0x00),
        long(0xd8, &[0x79, 0x79]),
        short(0x00, 0x94),
        short(0xc5, 0x33),
        short(0x00, 0xa3),
        short(0xc0, 0x1b),
        short(0x00, 0x82),
        short(0xc5, 0x83),
        short(0x00, 0x81),
        short(0xc4, 0x83),
        short(0x00, 0xa1),
        short(0xc1, 0x0e),
        short(0x00, 0xa6),
        long(0xb3, &[0x00, 0x01]),
        short(0x00, 0x80),
        long(0xce, &[0x85, 0x01, 0x00, 0x84, 0x01, 0x00]),
        short(0x00, 0xa0),
        long(0xce, &[0x18, 0x04, 0x03, 0x39, 0x00, 0x00, 0x00, 0x18, 0x03, 0x03, 0x3a, 0x00, 0x00, 0x00]),
        short(0x00, 0xb0),
        long(0xce, &[0x18, 0x02, 0x03, 0x3b, 0x00, 0x00, 0x00, 0x18, 0x01, 0x03, 0x3c, 0x00, 0x00, 0x00]),
        short(0x00, 0xc0),
        long(0xcf, &[0x01, 0x01, 0x20, 0x20, 0x00, 0x00, 0x01, 0x02, 0x00, 0x00]),
        short(0x00, 0xd0),
        short(0xcf, 0x00),
        short(0x00, 0x80),
        long(0xcb, &[0x00, 0x00, 0x00, 0x00, 0x00, 0x00, 0x00, 0x00, 0x00, 0x00]),
        short(0x00, 0x90),
        long(0xcb, &[0x00, 0x00, 0x00, 0x00, 0x00, 0x00, 0x00, 0x00, 0x00, 0x00, 0x00, 0x00, 0x00, 0x00, 0x00]),
        short(0x00, 0xa0),
        long(0xcb, &[0x00, 0x00, 0x00, 0x00, 0x00, 0x00, 0x00, 0x00, 0x00, 0x00, 0x00, 0x00, 0x00, 0x00, 0x00]),
        short(0x00, 0xb0),
        long(0xcb, &[0x00, 0x00, 0x00, 0x00, 0x00, 0x00, 0x00, 0x00, 0x00, 0x00]),
        short(0x00, 0xc0),
        long(0xcb, &[0x00, 0x04, 0x04, 0x04, 0x04, 0x04, 0x00, 0x00, 0x00, 0x00, 0x00, 0x00, 0x00, 0x00, 0x00]),
        short(0x00, 0xd0),
        long(0xcb, &[0x00, 0x00, 0x00, 0x00, 0x00, 0x00, 0x04, 0x04, 0x04, 0x04, 0x04, 0x00, 0x00, 0x00, 0x00]),
        short(0x00, 0xe0),
        long(0xcb, &[0x00, 0x00, 0x00, 0x00, 0x00, 0x00, 0x00, 0x00, 0x00, 0x00]),
        short(0x00, 0xf0),
        long(0xcb, &[0xff, 0xff, 0xff, 0xff, 0xff, 0xff, 0xff, 0xff, 0xff, 0xff]),
        short(0x00, 0x80),
        long(0xcc, &[0x00, 0x26, 0x09, 0x0b, 0x01, 0x25, 0x00, 0x00, 0x00, 0x00]),
        short(0x00, 0x90),
        long(0xcc, &[0x00, 0x00, 0x00, 0x00, 0x00, 0x00, 0x00, 0x00, 0x00, 0x00, 0x00, 0x26, 0x0a, 0x0c, 0x02]),
        short(0x00, 0xa0),
        long(0xcc, &[0x25, 0x00, 0x00, 0x00, 0x00, 0x00, 0x00, 0x00, 0x00, 0x00, 0x00, 0x00, 0x00, 0x00, 0x00]),
        short(0x00, 0xb0),
        long(0xcc, &[0x00, 0x25, 0x0c, 0x0a, 0x02, 0x26, 0x00, 0x00, 0x00, 0x00]),
        short(0x00, 0xc0),
        long(0xcc, &[0x00, 0x00, 0x00, 0x00, 0x00, 0x00, 0x00, 0x00, 0x00, 0x00, 0x00, 0x25, 0x0b, 0x09, 0x01]),
        short(0x00, 0xd0),
        long(0xcc, &[0x26, 0x00, 0x00, 0x00, 0x00, 0x00, 0x00, 0x00, 0x00, 0x00, 0x00, 0x00, 0x00, 0x00, 0x00]),
        short(0x00, 0x81),
        short(0xc5, 0x66),
        short(0x00, 0xb6),
        short(0xf5, 0x06),
        short(0x00, 0xb1),
        short(0xc6, 0x06),
        short(0x00, 0x00),
        long(0xff, &[0xff, 0xff, 0xff]),
        short(0x00, 0x00),
        short(0x00, 0x00),
        long(0xe1, &[0x00, 0x09, 0x0f, 0x0e, 0x07, 0x10, 0x0b, 0x0a, 0x04, 0x07, 0x0b, 0x08, 0x0f, 0x10, 0x0a, 0x01]),
        short(0x00, 0x00),
        long(0xe2, &[0x00, 0x09, 0x0f, 0x0e, 0x07, 0x10, 0x0b, 0x0a, 0x04, 0x07, 0x0b, 0x08, 0x0f, 0x10, 0x0a, 0x01]),
        short(0x11, 0x00),
        Step::Delay { ms: 120 },
        short(0x3a, 0x77),
        short(0x36, 0x60),
        long(0x2a, &[0x00, 0x00, 0x03, 0x1f]),
        long(0x2b, &[0x00, 0x00, 0x01, 0xdf]),
        short(0x51, 0x7f),
        short(0x53, 0x2c),
        short(0x55, 0x02),
        short(0x5e, 0xff),
        short(0x29, 0x00),
        short(0x00, 0x00),
        short(0x2c, 0x00),
    ]
}

#[test]
fn init_matches_golden_trace() {
    let driver = Otm8009A::new();
    assert_eq!(driver.init_steps(&landscape_800x480()), golden_trace());
}

#[test]
fn init_end_to_end_landscape_800x480() {
    let mut driver = Otm8009A::new();
    let (issued, result) = run(driver.init(landscape_800x480()), None);
    assert_eq!(result, Ok(()));
    assert_eq!(issued.len(), 104);
    assert_eq!(issued[95], long(0x2a, &[0x00, 0x00, 0x03, 0x1f]));
    assert_eq!(issued[96], long(0x2b, &[0x00, 0x00, 0x01, 0xdf]));
    assert_eq!(issued, golden_trace());
}

#[test]
fn init_stops_at_first_failure_for_every_step() {
    let mut driver = Otm8009A::new();
    let all = driver.init_steps(&landscape_800x480());
    for k in 0..all.len() {
        let (issued, result) = run(driver.init(landscape_800x480()), Some(k));
        assert_eq!(result, Err(k));
        assert_eq!(issued.len(), k + 1);
        assert_eq!(issued[..], all[..k + 1]);
    }
}

#[test]
fn init_has_two_short_pauses_and_one_long_one() {
    let driver = Otm8009A::new();
    let steps = driver.init_steps(&landscape_800x480());
    let pauses: Vec<(usize, u32)> = steps
        .iter()
        .enumerate()
        .filter_map(|(i, s)| match s {
            Step::Delay { ms } => Some((i, *ms)),
            _ => None,
        })
        .collect();
    assert_eq!(pauses, vec![(6, 10), (9, 10), (92, 120)]);
    assert_eq!(steps[91], short(0x11, 0x00));
}

#[test]
fn frame_rate_byte_repeats_code_in_both_nibbles() {
    let rates = [
        FrameRate::_35Hz,
        FrameRate::_40Hz,
        FrameRate::_45Hz,
        FrameRate::_50Hz,
        FrameRate::_55Hz,
        FrameRate::_60Hz,
        FrameRate::_65Hz,
        FrameRate::_70Hz,
    ];
    let driver = Otm8009A::new();
    for (v, rate) in rates.iter().enumerate() {
        let v = v as u8;
        assert_eq!(rate.code(), v);
        assert_eq!(frame_rate_value(*rate), v | (v << 4));
        let steps = driver.init_steps(&config(*rate, Mode::Portrait, ColorMap::Rgb, 480, 800));
        assert_eq!(steps[18], short(0x00, 0x81));
        assert_eq!(steps[19], short(0xc1, v | (v << 4)));
    }
    assert_eq!(frame_rate_value(FrameRate::_70Hz), 0x77);
    assert_eq!(frame_rate_value(FrameRate::_35Hz), 0x00);
}

#[test]
fn madctr_byte_for_each_orientation_and_colour_order() {
    assert_eq!(madctr_value(Mode::Portrait, ColorMap::Rgb), 0x00);
    assert_eq!(madctr_value(Mode::Landscape, ColorMap::Rgb), 0x60);
    assert_eq!(madctr_value(Mode::Portrait, ColorMap::Bgr), 0x08);
    assert_eq!(madctr_value(Mode::Landscape, ColorMap::Bgr), 0x68);
    let driver = Otm8009A::new();
    let steps = driver.init_steps(&config(FrameRate::_60Hz, Mode::Landscape, ColorMap::Bgr, 800, 480));
    assert_eq!(steps[94], short(0x36, 0x68));
}

#[test]
fn address_windows_are_big_endian() {
    assert_eq!(window_value(799), vec![0x00, 0x00, 0x03, 0x1f]);
    assert_eq!(window_value(479), vec![0x00, 0x00, 0x01, 0xdf]);
    let driver = Otm8009A::new();
    let smallest = driver.init_steps(&config(FrameRate::_35Hz, Mode::Portrait, ColorMap::Rgb, 1, 1));
    assert_eq!(smallest[95], long(0x2a, &[0, 0, 0, 0]));
    assert_eq!(smallest[96], long(0x2b, &[0, 0, 0, 0]));
    let largest =
        driver.init_steps(&config(FrameRate::_35Hz, Mode::Portrait, ColorMap::Rgb, 65535, 256));
    assert_eq!(largest[95], long(0x2a, &[0, 0, 0xff, 0xfe]));
    assert_eq!(largest[96], long(0x2b, &[0, 0, 0x00, 0xff]));
}

#[test]
fn init_fixed_part_does_not_depend_on_configuration() {
    let driver = Otm8009A::new();
    let a = driver.init_steps(&landscape_800x480());
    let b = driver.init_steps(&config(FrameRate::_40Hz, Mode::Portrait, ColorMap::Bgr, 480, 854));
    assert_eq!(a.len(), b.len());
    for i in 0..a.len() {
        if i != 19 && !(94..=96).contains(&i) {
            assert_eq!(a[i], b[i], "step {}", i);
        }
    }
    assert_ne!(a[19], b[19]);
    assert_ne!(a[94], b[94]);
}
