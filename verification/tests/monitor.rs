use rng_monitor::counter::CallCounter;
use rng_monitor::display::ConsoleLine;
use rng_monitor::display::board_init_line;
use rng_monitor::display::count_line;
use rng_monitor::display::format_field;
use rng_monitor::display::rate_line;
use rng_monitor::display::right_align;
use rng_monitor::display::state_line;
use rng_monitor::display::u64_to_string;
use rng_monitor::interceptor::FrameState;
use rng_monitor::interceptor::RawState;
use rng_monitor::interceptor::frame_tick;
use rng_monitor::interceptor::on_call;
use rng_monitor::rate::RATE_WINDOW_SIZE;
use rng_monitor::rate::RateAggregator;

#[test]
fn counter_starts_at_zero() {
    let c = CallCounter::new();
    assert_eq!(c.snapshot(), 0);
}

#[test]
fn counter_monotonic_over_mixed_operations() {
    let mut c = CallCounter::new();
    let mut last: u64 = c.snapshot();
    for i in 0..100u64 {
        if i % 3 == 0 {
            let s = c.snapshot();
            assert!(s >= last);
            last = s;
        } else {
            let v = c.increment();
            assert!(v > last);
            last = v;
        }
    }
    assert_eq!(c.snapshot(), 66);
}

#[test]
fn delta_matches_difference_of_cumulative_counts() {
    // Cumulative counts 5, 5, 12, 30, 30, 31: deltas 5, 0, 7, 18, 0, 1.
    let mut agg = RateAggregator::new();
    let cumulative = [5u64, 5, 12, 30, 30, 31];
    let expected = [5u64, 0, 7, 18, 0, 1];
    for (c, e) in cumulative.iter().zip(expected.iter()) {
        let (delta, _) = agg.tick(*c);
        assert_eq!(delta, *e);
    }
}

#[test]
fn first_tick_delta_counts_from_zero() {
    let mut agg = RateAggregator::new();
    let (delta, sum) = agg.tick(42);
    assert_eq!(delta, 42);
    assert_eq!(sum, 42);
}

#[test]
fn mean_stays_between_zero_and_max_delta() {
    let mut agg = RateAggregator::new();
    let mut cumulative: u64 = 0;
    let deltas = [3u64, 9, 0, 27, 1, 1, 80, 0, 5, 13];
    let mut max_delta: u64 = 0;
    for d in deltas.iter() {
        cumulative += d;
        if *d > max_delta {
            max_delta = *d;
        }
        let (_, sum) = agg.tick(cumulative);
        let mean = (sum as f64) / (RATE_WINDOW_SIZE as f64);
        assert!(mean >= 0.0);
        assert!(mean <= max_delta as f64);
    }
}

#[test]
fn window_evicts_oldest_delta_after_capacity_plus_one_ticks() {
    // Feed capacity + 1 ticks with deltas 1000, 1, 2, ..., 30: the window
    // then holds exactly 1 + 2 + ... + 30; the first delta is gone.
    let mut agg = RateAggregator::new();
    let mut cumulative: u64 = 0;
    cumulative += 1000;
    let (d0, s0) = agg.tick(cumulative);
    assert_eq!(d0, 1000);
    assert_eq!(s0, 1000);
    let mut last_sum: u128 = 0;
    for d in 1..=(RATE_WINDOW_SIZE as u64) {
        cumulative += d;
        let (delta, sum) = agg.tick(cumulative);
        assert_eq!(delta, d);
        last_sum = sum;
    }
    assert_eq!(last_sum, (1..=30u128).sum::<u128>());
}

#[test]
fn on_call_passes_value_through_unchanged() {
    let mut c = CallCounter::new();
    let state = RawState { r0: 1, r1: 2, r2: 3 };
    let (v, _) = on_call(&mut c, &state, 0.8236f64);
    assert_eq!(v, 0.8236f64);
    let (v, _) = on_call(&mut c, &state, f64::NEG_INFINITY);
    assert_eq!(v, f64::NEG_INFINITY);
    let (v, _) = on_call(&mut c, &state, u64::MAX);
    assert_eq!(v, u64::MAX);
}

#[test]
fn on_call_formats_count_and_state_lines() {
    let mut c = CallCounter::new();
    let state = RawState { r0: 7, r1: 123456, r2: 0 };
    let (_, updates) = on_call(&mut c, &state, 0.5f64);
    assert_eq!(updates.len(), 4);
    assert_eq!(updates[0].line, ConsoleLine::RngCallCount);
    assert_eq!(updates[0].text, "Count: 1");
    assert_eq!(updates[1].line, ConsoleLine::RngState0);
    assert_eq!(updates[1].text, "R0:     7");
    assert_eq!(updates[2].line, ConsoleLine::RngState1);
    assert_eq!(updates[2].text, "R1: 123456");
    assert_eq!(updates[3].line, ConsoleLine::RngState2);
    assert_eq!(updates[3].text, "R2:     0");
}

#[test]
fn three_calls_then_tick_scenario() {
    // Three intercepted calls, then one frame tick: snapshot is 3 and the
    // tick's delta is 3. Ten further ticks with no calls each report a
    // delta of 0 and a mean of 3/30 = 0.1 while the initial delta is still
    // in the window; it is evicted after 30 ticks in all.
    let mut c = CallCounter::new();
    let mut fs = FrameState::new();
    let mut agg = RateAggregator::new();
    let state = RawState { r0: 0, r1: 0, r2: 0 };
    for _ in 0..3 {
        let (_, _) = on_call(&mut c, &state, 1.0f64);
    }
    assert_eq!(c.snapshot(), 3);
    let (delta, sum, updates) = frame_tick(&mut fs, &mut agg, c.snapshot());
    assert_eq!(delta, 3);
    assert_eq!(sum, 3);
    assert_eq!(fs.frame_count, 1);
    assert_eq!(updates.len(), 1);
    assert_eq!(updates[0].line, ConsoleLine::RngCallRateFrame);
    assert_eq!(updates[0].text, "RNG Calls: 3");
    for _ in 0..10 {
        let (delta, sum, _) = frame_tick(&mut fs, &mut agg, c.snapshot());
        assert_eq!(delta, 0);
        assert_eq!(sum, 3);
        let mean = (sum as f64) / (RATE_WINDOW_SIZE as f64);
        assert!((mean - 0.1).abs() < 1e-12);
    }
    // Ticks 12 through 30 still see the initial delta in the window.
    for _ in 11..30 {
        let (_, sum, _) = frame_tick(&mut fs, &mut agg, c.snapshot());
        assert_eq!(sum, 3);
    }
    // The 31st tick overwrites the slot the initial delta occupied.
    let (_, sum, _) = frame_tick(&mut fs, &mut agg, c.snapshot());
    assert_eq!(sum, 0);
    assert_eq!(fs.frame_count, 31);
}

#[test]
fn field_of_seven_is_five_chars_right_aligned() {
    assert_eq!(format_field(7), "    7");
}

#[test]
fn field_wider_than_five_grows_without_truncation() {
    assert_eq!(format_field(123456), "123456");
}

#[test]
fn field_of_exactly_five_digits_gets_no_padding() {
    assert_eq!(format_field(12345), "12345");
}

#[test]
fn decimal_rendering_exact_values() {
    assert_eq!(u64_to_string(0), "0");
    assert_eq!(u64_to_string(10), "10");
    assert_eq!(u64_to_string(305), "305");
    assert_eq!(u64_to_string(u64::MAX), "18446744073709551615");
}

#[test]
fn right_align_pads_and_preserves() {
    assert_eq!(right_align(String::from("ab"), 5), "   ab");
    assert_eq!(right_align(String::from("abcdef"), 5), "abcdef");
    assert_eq!(right_align(String::new(), 3), "   ");
}

#[test]
fn line_builders_exact_text() {
    assert_eq!(count_line(3), "Count: 3");
    assert_eq!(board_init_line(17), "Board Init Count: 17");
    assert_eq!(rate_line(0), "RNG Calls: 0");
    assert_eq!(state_line(2, 99999), "R2: 99999");
}

#[test]
fn console_channels_map_to_fixed_slots() {
    assert_eq!(ConsoleLine::RngCallCount.index(), 0);
    assert_eq!(ConsoleLine::RngState0.index(), 2);
    assert_eq!(ConsoleLine::RngState1.index(), 3);
    assert_eq!(ConsoleLine::RngState2.index(), 4);
    assert_eq!(ConsoleLine::BoardInit.index(), 5);
    assert_eq!(ConsoleLine::RngCallRateFrame.index(), 6);
    assert_eq!(ConsoleLine::RngCallRateAvg.index(), 7);
}

#[test]
fn frame_counter_wraps_at_max() {
    let mut fs = FrameState::new();
    fs.frame_count = u32::MAX;
    let mut agg = RateAggregator::new();
    let (_, _, _) = frame_tick(&mut fs, &mut agg, 0);
    assert_eq!(fs.frame_count, 0);
}
