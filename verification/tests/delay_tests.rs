use audio_engine::delay::{lookahead_samples, DelayLine, LOOKAHEAD_MILLIS};

#[test]
fn lookahead_is_five_milliseconds_rounded_up() {
    assert_eq!(LOOKAHEAD_MILLIS, 5);
    assert_eq!(lookahead_samples(48_000), 240);
    assert_eq!(lookahead_samples(44_100), 221);
    assert_eq!(lookahead_samples(200), 1);
    assert_eq!(lookahead_samples(199), 1);
    assert_eq!(lookahead_samples(1), 1);
    assert_eq!(lookahead_samples(0), 0);
    assert_eq!(lookahead_samples(u32::MAX), 21_474_837);
}

#[test]
fn delay_line_reports_its_delay() {
    assert_eq!(DelayLine::new(0, 0u8).delay(), 0);
    assert_eq!(DelayLine::new(1, 0u8).delay(), 1);
    assert_eq!(DelayLine::new(240, 0.0f64).delay(), 240);
}

#[test]
fn delay_line_of_zero_passes_samples_through() {
    let mut line = DelayLine::new(0, 0i32);
    for x in [5, -3, 8, 0, 13] {
        assert_eq!(line.push(x), x);
    }
    assert_eq!(line.delay(), 0);
}

#[test]
fn delay_line_holds_back_first_sample() {
    let mut line = DelayLine::new(lookahead_samples(48_000), 0.0f64);
    let out = line.push(1.0);
    assert_eq!(out, 0.0);
}

#[test]
fn delay_line_delays_by_exactly_its_length() {
    for delay in [1usize, 2, 3, 7, 240] {
        let mut line = DelayLine::new(delay, -1i64);
        for n in 0..(3 * delay + 5) {
            let out = line.push(n as i64);
            if n < delay {
                assert_eq!(out, -1);
            } else {
                assert_eq!(out, (n - delay) as i64);
            }
        }
        assert_eq!(line.delay(), delay);
    }
}

#[test]
fn delay_line_carries_floating_point_samples() {
    let mut line = DelayLine::new(2, 0.0f32);
    let outs: Vec<f32> = [0.25f32, -0.5, 0.75, 1.0]
        .iter()
        .map(|x| line.push(*x))
        .collect();
    assert_eq!(outs, vec![0.0, 0.0, 0.25, -0.5]);
}
