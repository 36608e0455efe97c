use keylightd::command::{GetKeyboardBacklightResponse, SetKeyboardBacklight, Wire};
use keylightd::fade::{fade_start, fade_step, fade_to, FadeStep, LedAction, STEP_DELAY_MS};

fn lit(percent: u8) -> GetKeyboardBacklightResponse {
    GetKeyboardBacklightResponse { percent, enabled: 1 }
}

fn percents(steps: &[FadeStep]) -> Vec<u8> {
    steps.iter().map(|step| step.percent).collect()
}

#[test]
fn steps_are_three_milliseconds_apart() {
    assert_eq!(STEP_DELAY_MS, 3);
}

#[test]
fn a_disabled_backlight_counts_as_dark() {
    assert_eq!(fade_start(&GetKeyboardBacklightResponse { percent: 80, enabled: 0 }), 0);
    assert_eq!(fade_start(&GetKeyboardBacklightResponse { percent: 80, enabled: 1 }), 80);
    assert_eq!(fade_start(&GetKeyboardBacklightResponse { percent: 80, enabled: 255 }), 80);
}

#[test]
fn fade_up_counts_up_by_one() {
    let steps = fade_to(&lit(0), 30, false);
    assert_eq!(percents(&steps), (1..=30).collect::<Vec<u8>>());
    assert!(steps.iter().all(|step| step.led.is_none()));
}

#[test]
fn fade_down_counts_down_by_one() {
    let steps = fade_to(&lit(30), 0, false);
    assert_eq!(percents(&steps), (0..30).rev().collect::<Vec<u8>>());
}

#[test]
fn fade_to_the_current_brightness_is_empty() {
    assert_eq!(fade_to(&lit(30), 30, true), vec![]);
    assert_eq!(fade_to(&lit(0), 0, true), vec![]);
    assert_eq!(fade_to(&GetKeyboardBacklightResponse { percent: 30, enabled: 0 }, 0, true), vec![]);
}

#[test]
fn fade_from_a_disabled_backlight_starts_at_zero() {
    let steps = fade_to(&GetKeyboardBacklightResponse { percent: 50, enabled: 0 }, 3, false);
    assert_eq!(percents(&steps), vec![1, 2, 3]);
}

#[test]
fn fade_covers_the_whole_byte_range() {
    assert_eq!(percents(&fade_to(&lit(0), 255, false)), (1..=255).collect::<Vec<u8>>());
    assert_eq!(percents(&fade_to(&lit(255), 0, false)), (0..255).rev().collect::<Vec<u8>>());
}

#[test]
fn fade_is_strictly_monotonic_and_ends_on_the_target() {
    for cur in 0..=255u8 {
        for target in [0u8, 1, 2, 30, 99, 100, 101, 254, 255] {
            let steps = fade_to(&lit(cur), target, true);
            assert_eq!(steps.len(), usize::from(cur.abs_diff(target)));
            let mut at = cur;
            for step in &steps {
                assert_eq!(step.percent.abs_diff(at), 1);
                assert!(step.percent.abs_diff(target) < at.abs_diff(target));
                at = step.percent;
            }
            assert_eq!(at, target);
        }
    }
}

#[test]
fn fade_between_valid_percentages_stays_valid() {
    for cur in 0..=100u8 {
        for target in 0..=100u8 {
            assert!(fade_to(&lit(cur), target, true).iter().all(|step| step.percent <= 100));
        }
    }
}

#[test]
fn power_led_goes_off_at_zero_and_back_at_one() {
    assert_eq!(
        fade_to(&lit(3), 0, true),
        vec![
            FadeStep { percent: 2, led: None },
            FadeStep { percent: 1, led: Some(LedAction::Auto) },
            FadeStep { percent: 0, led: Some(LedAction::Off) },
        ]
    );
    assert_eq!(
        fade_to(&lit(0), 3, true),
        vec![
            FadeStep { percent: 1, led: Some(LedAction::Auto) },
            FadeStep { percent: 2, led: None },
            FadeStep { percent: 3, led: None },
        ]
    );
}

#[test]
fn power_led_follows_the_thresholds_in_every_fade() {
    for cur in 0..=255u8 {
        for target in 0..=255u8 {
            let steps = fade_to(&lit(cur), target, true);
            for step in &steps {
                let expected = match step.percent {
                    0 => Some(LedAction::Off),
                    1 => Some(LedAction::Auto),
                    _ => None,
                };
                assert_eq!(step.led, expected);
            }
            let off = steps.iter().filter(|step| step.led == Some(LedAction::Off)).count();
            let auto = steps.iter().filter(|step| step.led == Some(LedAction::Auto)).count();
            assert_eq!(off, usize::from(target == 0 && cur != 0));
            assert_eq!(
                auto,
                usize::from((cur == 0 && target >= 1) || (cur >= 2 && target <= 1))
            );
        }
    }
}

#[test]
fn power_led_is_left_alone_unless_asked() {
    for (cur, target) in [(5u8, 0u8), (0, 5), (1, 0), (0, 1), (2, 1)] {
        assert!(fade_to(&lit(cur), target, false).iter().all(|step| step.led.is_none()));
    }
}

#[test]
fn fade_step_is_the_head_of_the_fade() {
    assert_eq!(fade_step(7, 7, true), None);
    assert_eq!(fade_step(7, 9, true), Some(FadeStep { percent: 8, led: None }));
    assert_eq!(fade_step(1, 0, true), Some(FadeStep { percent: 0, led: Some(LedAction::Off) }));
    assert_eq!(fade_step(1, 0, false), Some(FadeStep { percent: 0, led: None }));
    assert_eq!(fade_step(0, 200, true), Some(FadeStep { percent: 1, led: Some(LedAction::Auto) }));
    assert_eq!(fade_step(255, 0, true), Some(FadeStep { percent: 254, led: None }));
    for cur in 0..=255u8 {
        for target in [0u8, 1, 100, 255] {
            assert_eq!(fade_step(cur, target, true), fade_to(&lit(cur), target, true).first().copied());
        }
    }
}

#[test]
fn step_command_sets_the_percentage() {
    let step = FadeStep { percent: 17, led: None };
    assert_eq!(step.command(), SetKeyboardBacklight { percent: 17 });
}

#[test]
fn led_commands_address_the_power_led() {
    assert_eq!(LedAction::Off.command().encode(), vec![1, 0, 0, 0, 0, 0, 0, 0]);
    assert_eq!(LedAction::Auto.command().encode(), vec![1, 2, 0, 0, 0, 0, 0, 0]);
}
