use delta_formatter::accuracy::Accuracy;
use delta_formatter::delta::Delta;
use delta_formatter::time_span::TimeSpan;

const ALL: [Accuracy; 3] = [Accuracy::Seconds, Accuracy::Tenths, Accuracy::Hundredths];

fn render(micros: i64, drop_decimals: bool, accuracy: Accuracy) -> String {
    Delta::custom(drop_decimals, accuracy)
        .format(Some(TimeSpan::from_microseconds(micros)))
        .to_string()
}

#[test]
fn absent_duration_is_a_dash() {
    for accuracy in ALL {
        for drop_decimals in [false, true] {
            let text = Delta::custom(drop_decimals, accuracy).format(None).to_string();
            assert_eq!(text, "—");
            assert_eq!(text, "\u{2014}");
        }
    }
    assert_eq!(Delta::new().format(None).to_string(), "—");
}

#[test]
fn negative_durations_start_with_minus() {
    for micros in [-1, -999_999, -1_000_000, -59_999_999, -60_000_000, -3_725_000_000, i64::MIN] {
        for accuracy in ALL {
            for drop_decimals in [false, true] {
                let text = render(micros, drop_decimals, accuracy);
                assert_eq!(text.chars().next(), Some('\u{2212}'), "{micros}");
                assert_ne!(text.chars().next(), Some('-'), "{micros}");
            }
        }
    }
}

#[test]
fn zero_and_positive_durations_start_with_plus() {
    for micros in [0, 1, 999_999, 1_000_000, 59_999_999, 60_000_000, 3_725_000_000, i64::MAX] {
        for accuracy in ALL {
            for drop_decimals in [false, true] {
                let text = render(micros, drop_decimals, accuracy);
                assert_eq!(text.chars().next(), Some('+'), "{micros}");
            }
        }
    }
}

#[test]
fn a_duration_shortly_before_zero_keeps_its_minus() {
    assert_eq!(render(-1, false, Accuracy::Hundredths), "−0.00");
    assert_eq!(render(-1, true, Accuracy::Hundredths), "−0");
    assert_eq!(render(-40_000, false, Accuracy::Tenths), "−0.0");
}

#[test]
fn zero_with_whole_seconds() {
    assert_eq!(render(0, false, Accuracy::Seconds), "+0");
    assert_eq!(render(0, true, Accuracy::Seconds), "+0");
    assert_eq!(render(0, true, Accuracy::Tenths), "+0");
    assert_eq!(render(0, true, Accuracy::Hundredths), "+0");
}

#[test]
fn zero_with_tenths() {
    assert_eq!(render(0, false, Accuracy::Tenths), "+0.0");
}

#[test]
fn zero_with_hundredths() {
    assert_eq!(render(0, false, Accuracy::Hundredths), "+0.00");
}

#[test]
fn seconds_alone_with_tenths() {
    assert_eq!(render(45_678_000, false, Accuracy::Tenths), "+45.7");
}

#[test]
fn seconds_alone_with_other_settings() {
    assert_eq!(render(45_678_000, false, Accuracy::Hundredths), "+45.68");
    assert_eq!(render(45_678_000, false, Accuracy::Seconds), "+45");
    assert_eq!(render(45_678_000, true, Accuracy::Tenths), "+45");
    assert_eq!(render(45_678_000, true, Accuracy::Hundredths), "+45");
    assert_eq!(render(5_000_000, false, Accuracy::Tenths), "+5.0");
    assert_eq!(render(5_040_000, false, Accuracy::Hundredths), "+5.04");
}

#[test]
fn minutes_with_tenths() {
    assert_eq!(render(125_400_000, false, Accuracy::Tenths), "+2:05.4");
}

#[test]
fn minutes_with_other_settings() {
    assert_eq!(render(125_400_000, false, Accuracy::Hundredths), "+2:05.40");
    assert_eq!(render(125_400_000, false, Accuracy::Seconds), "+2:05");
    assert_eq!(render(125_400_000, true, Accuracy::Tenths), "+2:05");
    assert_eq!(render(60_000_000, false, Accuracy::Tenths), "+1:00.0");
    assert_eq!(render(60_000_000, true, Accuracy::Tenths), "+1:00");
    assert_eq!(render(3_599_000_000, false, Accuracy::Seconds), "+59:59");
    assert_eq!(render(-754_120_000, false, Accuracy::Hundredths), "−12:34.12");
}

#[test]
fn hours_with_whole_seconds() {
    assert_eq!(render(3_725_000_000, false, Accuracy::Seconds), "+1:02:05");
    assert_eq!(render(3_725_000_000, true, Accuracy::Seconds), "+1:02:05");
}

#[test]
fn negative_hours_with_dropped_decimals() {
    for accuracy in ALL {
        assert_eq!(render(-3_725_000_000, true, accuracy), "−1:02:05");
    }
}

#[test]
fn hours_with_fractions() {
    assert_eq!(render(3_604_100_000, false, Accuracy::Tenths), "+1:00:04.1");
    assert_eq!(render(3_605_200_000, false, Accuracy::Hundredths), "+1:00:05.20");
    assert_eq!(render(3_600_000_000, false, Accuracy::Hundredths), "+1:00:00.00");
    assert_eq!(render(-86_399_990_000, false, Accuracy::Hundredths), "−23:59:59.99");
    assert_eq!(render(360_000_000_000, false, Accuracy::Tenths), "+100:00:00.0");
}

#[test]
fn hours_have_no_leading_zero_and_no_limit() {
    assert_eq!(render(36_000_000_000, true, Accuracy::Tenths), "+10:00:00");
    assert_eq!(render(i64::MAX, false, Accuracy::Tenths), "+2562047788:00:54.8");
    assert_eq!(render(i64::MAX, false, Accuracy::Hundredths), "+2562047788:00:54.78");
    assert_eq!(render(i64::MAX, true, Accuracy::Hundredths), "+2562047788:00:54");
    assert_eq!(render(i64::MIN, false, Accuracy::Hundredths), "−2562047788:00:54.78");
    assert_eq!(render(i64::MIN, false, Accuracy::Seconds), "−2562047788:00:54");
}

#[test]
fn dropped_decimals_cut_off_and_do_not_round() {
    assert_eq!(render(999_999, true, Accuracy::Tenths), "+0");
    assert_eq!(render(59_999_999, true, Accuracy::Tenths), "+59");
    assert_eq!(render(59_999_999, false, Accuracy::Seconds), "+59");
    assert_eq!(render(119_999_999, true, Accuracy::Hundredths), "+1:59");
    assert_eq!(render(7_199_999_999, true, Accuracy::Hundredths), "+1:59:59");
}

#[test]
fn dropping_decimals_is_whole_second_accuracy() {
    for micros in [0, 1, 45_678_000, -125_400_000, 3_725_999_999, i64::MIN, i64::MAX] {
        for accuracy in ALL {
            assert_eq!(render(micros, true, accuracy), render(micros, false, Accuracy::Seconds));
        }
    }
}

#[test]
fn just_under_a_minute_stays_in_the_seconds_tier() {
    assert_eq!(render(59_960_000, false, Accuracy::Hundredths), "+59.96");
    assert_eq!(render(59_960_000, false, Accuracy::Tenths), "+60.0");
    assert_eq!(render(59_996_000, false, Accuracy::Hundredths), "+60.00");
    assert_eq!(render(59_949_999, false, Accuracy::Tenths), "+59.9");
    assert_eq!(render(-59_999_999, false, Accuracy::Tenths), "−60.0");
    assert_eq!(render(59_999_999, false, Accuracy::Seconds), "+59");
}

#[test]
fn just_under_an_hour_stays_in_the_minutes_tier() {
    assert_eq!(render(3_599_960_000, false, Accuracy::Hundredths), "+59:59.96");
    assert_eq!(render(3_599_960_000, false, Accuracy::Tenths), "+59:60.0");
    assert_eq!(render(3_599_999_999, false, Accuracy::Hundredths), "+59:60.00");
    assert_eq!(render(3_599_999_999, true, Accuracy::Hundredths), "+59:59");
}

#[test]
fn just_under_a_full_minute_past_the_hour_keeps_its_minute() {
    assert_eq!(render(3_659_960_000, false, Accuracy::Tenths), "+1:00:60.0");
    assert_eq!(render(7_199_996_000, false, Accuracy::Hundredths), "+1:59:60.00");
}

#[test]
fn colons_count_the_units_before_the_seconds() {
    let colons = |text: &str| text.chars().filter(|c| *c == ':').count();
    for accuracy in ALL {
        for drop_decimals in [false, true] {
            for sign in [1, -1] {
                assert_eq!(colons(&render(0, drop_decimals, accuracy)), 0);
                assert_eq!(colons(&render(sign * 59_999_999, drop_decimals, accuracy)), 0);
                assert_eq!(colons(&render(sign * 60_000_000, drop_decimals, accuracy)), 1);
                assert_eq!(colons(&render(sign * 3_599_999_999, drop_decimals, accuracy)), 1);
                assert_eq!(colons(&render(sign * 3_600_000_000, drop_decimals, accuracy)), 2);
                assert_eq!(colons(&render(sign * i64::MAX, drop_decimals, accuracy)), 2);
            }
        }
    }
}

#[test]
fn a_tie_goes_to_the_even_digit() {
    assert_eq!(render(50_000, false, Accuracy::Tenths), "+0.0");
    assert_eq!(render(150_000, false, Accuracy::Tenths), "+0.2");
    assert_eq!(render(250_000, false, Accuracy::Tenths), "+0.2");
    assert_eq!(render(350_000, false, Accuracy::Tenths), "+0.4");
    assert_eq!(render(250_001, false, Accuracy::Tenths), "+0.3");
    assert_eq!(render(249_999, false, Accuracy::Tenths), "+0.2");
    assert_eq!(render(5_000, false, Accuracy::Hundredths), "+0.00");
    assert_eq!(render(15_000, false, Accuracy::Hundredths), "+0.02");
    assert_eq!(render(125_000, false, Accuracy::Hundredths), "+0.12");
    assert_eq!(render(375_000, false, Accuracy::Hundredths), "+0.38");
    assert_eq!(render(-62_450_000, false, Accuracy::Tenths), "−1:02.4");
    assert_eq!(render(59_950_000, false, Accuracy::Tenths), "+60.0");
    assert_eq!(render(59_850_000, false, Accuracy::Tenths), "+59.8");
}

#[test]
fn ties_agree_with_floats_that_hold_them_exactly() {
    // Quarters and eighths of a second are exact in binary floating point, so the
    // standard formatting sees the same tie.
    for (micros, seconds) in [(250_000, 0.25_f64), (750_000, 0.75), (2_250_000, 2.25), (7_750_000, 7.75)] {
        assert_eq!(render(micros, false, Accuracy::Tenths), format!("+{:.1}", seconds));
    }
    for (micros, seconds) in [(125_000, 0.125_f64), (375_000, 0.375), (625_000, 0.625), (9_875_000, 9.875)] {
        assert_eq!(render(micros, false, Accuracy::Hundredths), format!("+{:.2}", seconds));
    }
}

#[test]
fn the_three_presets_drop_decimals() {
    let span = Some(TimeSpan::from_microseconds(45_678_000));
    assert_eq!(Delta::new().format(span).to_string(), "+45");
    assert_eq!(Delta::with_decimal_dropping().format(span).to_string(), "+45");
    assert_eq!(Delta::default().format(span).to_string(), "+45");
    let span = Some(TimeSpan::from_microseconds(-3_725_900_000));
    assert_eq!(Delta::new().format(span).to_string(), "−1:02:05");
    assert_eq!(Delta::with_decimal_dropping().format(span).to_string(), "−1:02:05");
    assert_eq!(Delta::default().format(span).to_string(), "−1:02:05");
}

#[test]
fn the_same_request_renders_the_same_text() {
    for micros in [0, -1, 45_678_000, 125_400_000, -3_725_000_000, 59_960_000] {
        for accuracy in ALL {
            for drop_decimals in [false, true] {
                let formatter = Delta::custom(drop_decimals, accuracy);
                let request = formatter.format(Some(TimeSpan::from_microseconds(micros)));
                let first = request.to_string();
                let second = request.to_string();
                let third = Delta::custom(drop_decimals, accuracy)
                    .format(Some(TimeSpan::from_microseconds(micros)))
                    .to_string();
                assert_eq!(first, second);
                assert_eq!(first, third);
            }
        }
    }
    let absent = Delta::new().format(None);
    assert_eq!(absent.to_string(), absent.to_string());
}

/// The same rule written with floating-point seconds and the standard formatting.
fn float_rendering(micros: i64, drop_decimals: bool, accuracy: Accuracy) -> String {
    let mut total_seconds = micros as f64 / 1_000_000.0;
    let sign = if total_seconds < 0.0 {
        total_seconds = -total_seconds;
        "−"
    } else {
        "+"
    };
    let seconds = total_seconds % 60.0;
    let total_minutes = (total_seconds / 60.0) as u64;
    let minutes = total_minutes % 60;
    let hours = total_minutes / 60;
    let places = if drop_decimals {
        0
    } else {
        match accuracy {
            Accuracy::Seconds => 0,
            Accuracy::Tenths => 1,
            Accuracy::Hundredths => 2,
        }
    };
    let padded = total_minutes > 0;
    let field = match (places, padded) {
        (0, false) => format!("{}", seconds as u8),
        (0, true) => format!("{:02}", seconds as u8),
        (1, false) => format!("{:.1}", seconds),
        (1, true) => format!("{:04.1}", seconds),
        (_, false) => format!("{:.2}", seconds),
        (_, true) => format!("{:05.2}", seconds),
    };
    if hours > 0 {
        format!("{}{}:{:02}:{}", sign, hours, minutes, field)
    } else if total_minutes > 0 {
        format!("{}{}:{}", sign, minutes, field)
    } else {
        format!("{}{}", sign, field)
    }
}

#[test]
fn agrees_with_float_formatting_off_ties() {
    // A walk over durations up to some days, by a step that shares no factor with
    // the rounding steps; exact ties are left out, where a float need not hold the
    // value that the microseconds say.
    let mut micros: i64 = 0;
    let mut seen = 0;
    while micros < 200_000_000_000 {
        let tie = micros % 10_000 == 5_000 || micros % 100_000 == 50_000;
        if !tie {
            for accuracy in ALL {
                for drop_decimals in [false, true] {
                    for value in [micros, -micros] {
                        assert_eq!(
                            render(value, drop_decimals, accuracy),
                            float_rendering(value, drop_decimals, accuracy),
                            "{value} {drop_decimals} {accuracy:?}"
                        );
                    }
                }
            }
            seen += 1;
        }
        micros += 15_308_641 + (micros / 1_000) % 977;
    }
    assert!(seen > 10_000);
}

#[test]
fn agrees_with_float_formatting_around_each_second() {
    for second in 0..7_300_i64 {
        for offset in [-60_001, -50_001, -49_999, -5_001, -4_999, -1, 0, 1, 4_999, 5_001, 49_999, 50_001] {
            let micros = second * 1_000_000 + offset;
            if micros < 0 {
                continue;
            }
            for accuracy in ALL {
                assert_eq!(
                    render(micros, false, accuracy),
                    float_rendering(micros, false, accuracy),
                    "{micros} {accuracy:?}"
                );
            }
        }
    }
}
