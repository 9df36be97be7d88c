use yamato::knob::{
    next_preset, temp_words_string, ESCAPE_PRESETS, POLL_PRESETS, STANDBY_POLL_PRESETS,
    WATCHDOG_PRESETS,
};
use yamato::layout::{CANVAS_BOTTOM_GAP, CANVAS_TOP};
use yamato::{
    Config, CurvePoint, EcLayout, Knob, Limits, PointKnob, StartupMode, KNOBS, POINT_KNOBS,
};

fn fresh() -> Config {
    Config {
        poll_secs: 5,
        watchdog_secs: 60,
        standby_poll_secs: 30,
        manual_escape_c: 80,
        fahrenheit: false,
        startup_mode: StartupMode::Smart,
        log_enabled: false,
        log_max_mb: 8,
        show_window_on_start: true,
        single_fan: false,
        ec_layout: None,
        ignored_sensors: Vec::new(),
        profiles: Vec::new(),
        active_profile: String::new(),
    }
}

fn limits() -> Limits {
    Limits {
        poll_secs_min: 1,
        poll_secs_max: 60,
        standby_poll_secs_min: 5,
        standby_poll_secs_max: 120,
        manual_escape_min: 50,
        manual_escape_max: 95,
    }
}

fn floor(poll: u32, standby: u32) -> u32 {
    poll.max(standby) * 2 + 10
}

fn celsius_or_not(celsius: i8, fahrenheit: bool) -> i32 {
    if fahrenheit {
        (celsius as i32 * 9 + 160) / 5
    } else {
        celsius as i32
    }
}

fn unit(fahrenheit: bool) -> String {
    if fahrenheit { "\u{00b0}F".to_string() } else { "\u{00b0}C".to_string() }
}

fn value(knob: Knob, config: &Config) -> String {
    knob.value(config, &celsius_or_not, &unit)
}

fn cycle(knob: Knob, config: &mut Config) {
    knob.cycle(config, &limits(), &floor);
}

/// Reads settings back with every number brought into its range.
fn read_back(config: &Config) -> Config {
    let l = limits();
    let mut back = config.clone();
    back.poll_secs = back.poll_secs.clamp(l.poll_secs_min, l.poll_secs_max);
    back.standby_poll_secs =
        back.standby_poll_secs.clamp(l.standby_poll_secs_min, l.standby_poll_secs_max);
    back.manual_escape_c = back.manual_escape_c.clamp(l.manual_escape_min, l.manual_escape_max);
    back.watchdog_secs =
        back.watchdog_secs.max(floor(back.poll_secs, back.standby_poll_secs));
    back
}

#[test]
fn the_canvas_leaves_room_for_axis_labels() {
    assert!(CANVAS_TOP > 0);
    assert!(CANVAS_BOTTOM_GAP > 24);
}

#[test]
fn every_settings_row_is_a_different_setting() {
    for (i, knob) in KNOBS.iter().enumerate() {
        assert!(!KNOBS[..i].contains(knob), "{knob:?} appears twice");
    }
}

#[test]
fn cycling_a_setting_never_writes_what_the_loader_would_change() {
    let mut config = fresh();

    for knob in KNOBS {
        for _ in 0..12 {
            cycle(knob, &mut config);

            let back = read_back(&config);

            assert_eq!(back.poll_secs, config.poll_secs, "{knob:?} moved the poll");
            assert_eq!(
                back.standby_poll_secs, config.standby_poll_secs,
                "{knob:?} moved the standby poll"
            );
            assert_eq!(
                back.watchdog_secs, config.watchdog_secs,
                "{knob:?} left the watchdog below its floor"
            );
            assert_eq!(back.log_max_mb, config.log_max_mb);
            assert_eq!(
                back.manual_escape_c, config.manual_escape_c,
                "{knob:?} moved the escape out of range"
            );
            assert_eq!(back.startup_mode, config.startup_mode);
            assert_eq!(back.log_enabled, config.log_enabled);
            assert_eq!(back.single_fan, config.single_fan);
            assert_eq!(back.ec_layout, config.ec_layout, "{knob:?} moved the layout");
        }
    }
}

#[test]
fn a_poll_row_visits_every_preset_and_comes_back() {
    let mut config = fresh();
    let mut seen = Vec::new();

    for _ in 0..POLL_PRESETS.len() {
        cycle(Knob::Poll, &mut config);
        seen.push(config.poll_secs);
    }

    for preset in POLL_PRESETS {
        assert!(seen.contains(&preset), "{preset} s was never offered");
    }
    assert_eq!(config.poll_secs, 5);
}

#[test]
fn the_other_preset_rows_visit_every_preset() {
    let mut config = fresh();
    let mut standby = Vec::new();
    let mut escape = Vec::new();

    for _ in 0..STANDBY_POLL_PRESETS.len() {
        cycle(Knob::StandbyPoll, &mut config);
        standby.push(config.standby_poll_secs);
    }
    for _ in 0..ESCAPE_PRESETS.len() {
        cycle(Knob::Escape, &mut config);
        escape.push(config.manual_escape_c as u32);
    }

    assert_eq!(standby, vec![60, 120, 5, 10, 15, 30]);
    assert_eq!(escape, vec![85, 90, 60, 65, 70, 75, 78, 80]);
}

#[test]
fn a_value_from_a_hand_edited_file_still_moves_on() {
    assert_eq!(next_preset(&POLL_PRESETS, 7), 10);
    assert_eq!(next_preset(&POLL_PRESETS, 60), POLL_PRESETS[0]);
    assert_eq!(next_preset(&POLL_PRESETS, 200), POLL_PRESETS[0]);
}

#[test]
fn presets_come_in_the_order_of_the_list() {
    assert_eq!(next_preset(&[9, 4, 7], 5), 9);
    assert_eq!(next_preset(&[4, 9, 7], 5), 9);
    assert_eq!(next_preset(&[3], 3), 3);
    assert_eq!(next_preset(&WATCHDOG_PRESETS, 0), 30);
}

#[test]
fn a_slower_poll_takes_the_watchdog_with_it() {
    let mut config = fresh();

    for _ in 0..POLL_PRESETS.len() * 2 {
        cycle(Knob::Poll, &mut config);
        assert!(config.watchdog_secs >= floor(config.poll_secs, config.standby_poll_secs));
    }
    assert_eq!(config.watchdog_secs, 130);
}

#[test]
fn the_watchdog_row_cannot_go_below_its_floor() {
    let mut config = fresh();
    config.watchdog_secs = 180;

    cycle(Knob::Watchdog, &mut config);
    // Thirty is the preset, but a standby poll of thirty needs seventy.
    assert_eq!(config.watchdog_secs, 70);
    assert_eq!(value(Knob::Watchdog, &config), "70 s");

    cycle(Knob::Watchdog, &mut config);
    assert_eq!(config.watchdog_secs, 90);
}

#[test]
fn the_limits_hold_where_a_preset_is_outside_them() {
    let narrow = Limits {
        poll_secs_min: 2,
        poll_secs_max: 20,
        standby_poll_secs_min: 20,
        standby_poll_secs_max: 40,
        manual_escape_min: 70,
        manual_escape_max: 79,
    };
    let mut config = fresh();
    config.poll_secs = 15;
    config.standby_poll_secs = 120;
    config.manual_escape_c = -3;

    Knob::Poll.step(&mut config, &narrow);
    assert_eq!(config.poll_secs, 20);
    Knob::StandbyPoll.step(&mut config, &narrow);
    assert_eq!(config.standby_poll_secs, 20);
    Knob::Escape.step(&mut config, &narrow);
    assert_eq!(config.manual_escape_c, 70);
    config.manual_escape_c = 79;
    Knob::Escape.step(&mut config, &narrow);
    assert_eq!(config.manual_escape_c, 79);
    // Nothing else moves with a step.
    assert_eq!(config.watchdog_secs, 60);
}

#[test]
fn the_two_state_rows_go_back_as_well_as_forward() {
    let mut config = fresh();

    for knob in [Knob::StartIn, Knob::Logging, Knob::SingleFan, Knob::EcLayout] {
        let before = value(knob, &config);
        cycle(knob, &mut config);
        assert_ne!(value(knob, &config), before, "{knob:?} did not change");
        cycle(knob, &mut config);
        assert_eq!(value(knob, &config), before, "{knob:?} did not come back");
    }
}

#[test]
fn the_window_row_goes_back_too() {
    let mut config = fresh();
    assert_eq!(value(Knob::ShowWindow, &config), "Window");
    cycle(Knob::ShowWindow, &mut config);
    assert_eq!(value(Knob::ShowWindow, &config), "Tray only");
    cycle(Knob::ShowWindow, &mut config);
    assert_eq!(value(Knob::ShowWindow, &config), "Window");
}

#[test]
fn one_row_leaves_the_others_alone() {
    for knob in KNOBS {
        let mut config = fresh();
        cycle(knob, &mut config);
        for other in KNOBS {
            if other != knob && other != Knob::Watchdog {
                assert_eq!(value(other, &config), value(other, &fresh()), "{knob:?} moved {other:?}");
            }
        }
    }
}

#[test]
fn the_controller_mode_row_is_the_last_thing_anyone_scrolls_past() {
    assert_eq!(KNOBS.last(), Some(&Knob::EcLayout));
}

#[test]
fn the_controller_mode_row_is_an_override_between_the_two_real_modes() {
    let mut config = fresh();
    assert_eq!(config.ec_layout, None);
    assert_eq!(value(Knob::EcLayout, &config), "Standard");

    cycle(Knob::EcLayout, &mut config);
    assert_eq!(config.ec_layout, Some(EcLayout::Compat));
    assert_eq!(value(Knob::EcLayout, &config), "Compatibility");

    cycle(Knob::EcLayout, &mut config);
    assert_eq!(config.ec_layout, Some(EcLayout::Standard));
    assert_eq!(value(Knob::EcLayout, &config), "Standard");
}

#[test]
fn the_controller_mode_words_match_the_hint_that_names_them() {
    let config = Config { ec_layout: Some(EcLayout::Compat), ..fresh() };

    let value = value(Knob::EcLayout, &config);
    let hint = "Try Compatibility mode.";

    assert!(hint.contains(&value), "the hint says {hint:?} but the row says {value:?}");
    assert!(Knob::EcLayout.describe().starts_with("Advanced"));
}

#[test]
fn every_row_says_what_it_is_for_in_the_space_available() {
    const STANDING_HINT: &str =
        "Click a value to change it. Right-click a sensor to leave it out of the decision.";

    for knob in KNOBS {
        let text = knob.describe();

        assert!(!text.is_empty(), "{knob:?} has no description");
        assert!(
            text.len() <= STANDING_HINT.len(),
            "{knob:?} is {} characters, past the {} that are known to fit",
            text.len(),
            STANDING_HINT.len()
        );
        assert!(text.ends_with('.'), "{knob:?} is not a sentence");
    }
}

#[test]
fn standby_is_not_a_row_anybody_has_to_answer() {
    assert!(!KNOBS.iter().any(|k| format!("{k:?}") == "Standby"));
}

#[test]
fn the_fan_count_is_reachable_from_the_window_and_starts_at_dual() {
    assert!(KNOBS.contains(&Knob::SingleFan));

    let mut config = fresh();
    assert_eq!(value(Knob::SingleFan, &config), "Dual");

    cycle(Knob::SingleFan, &mut config);
    assert!(config.single_fan);
    assert_eq!(value(Knob::SingleFan, &config), "Single");
}

#[test]
fn rows_read_what_is_set() {
    let mut config = fresh();
    assert_eq!(value(Knob::Poll, &config), "5 s");
    assert_eq!(value(Knob::StandbyPoll, &config), "30 s");
    assert_eq!(value(Knob::Escape, &config), "80\u{00b0}C");
    assert_eq!(value(Knob::StartIn, &config), "Smart");
    assert_eq!(value(Knob::Logging, &config), "Off");

    config.fahrenheit = true;
    assert_eq!(value(Knob::Escape, &config), "176\u{00b0}F");
    config.manual_escape_c = -20;
    assert_eq!(value(Knob::Escape, &config), "-4\u{00b0}F");
    config.poll_secs = u32::MAX;
    assert_eq!(value(Knob::Poll, &config), "4294967295 s");
    assert_eq!(temp_words_string(i32::MIN, "!"), "-2147483648!");
}

#[test]
fn labels_are_the_names_on_the_rows() {
    let labels: Vec<&str> = KNOBS.iter().map(|k| k.label()).collect();
    assert_eq!(
        labels,
        vec![
            "Poll",
            "Watchdog",
            "Manual escape",
            "Standby poll",
            "Start in",
            "Logging",
            "Open at start",
            "Fans",
            "Controller mode"
        ]
    );
}

#[test]
fn the_point_rows_say_what_happens_rather_than_what_it_is_called() {
    let point = CurvePoint { temp: 70, level: 4, hyst_up: 2, hyst_down: 6 };

    assert_eq!(PointKnob::SlowDown.value(&point), "6\u{00b0} cooler");
    assert_eq!(PointKnob::SpeedUp.value(&point), "2\u{00b0} hotter");

    for knob in POINT_KNOBS {
        assert!(!knob.label().to_lowercase().contains("hyster"));
    }
}

#[test]
fn a_point_with_no_wait_says_so_in_words() {
    let point = CurvePoint { temp: 70, level: 4, hyst_up: 0, hyst_down: 0 };

    for knob in POINT_KNOBS {
        assert_eq!(knob.value(&point), "right away");
    }
}

#[test]
fn every_preset_is_offered_from_anywhere() {
    for start in [0, 4, 7, 60, 999] {
        let mut config = fresh();
        config.poll_secs = start;
        let mut seen = Vec::new();
        for _ in 0..POLL_PRESETS.len() {
            cycle(Knob::Poll, &mut config);
            seen.push(config.poll_secs);
        }
        seen.sort();
        assert_eq!(seen, POLL_PRESETS.to_vec());
    }
    let mut config = fresh();
    config.manual_escape_c = -40;
    let mut seen = Vec::new();
    for _ in 0..ESCAPE_PRESETS.len() {
        cycle(Knob::Escape, &mut config);
        seen.push(config.manual_escape_c as u32);
    }
    assert_eq!(seen, ESCAPE_PRESETS.to_vec());
}

#[test]
fn the_watchdog_row_shows_what_is_in_force() {
    let mut config = fresh();
    config.standby_poll_secs = 60;
    config.watchdog_secs = 180;
    let mut seen = Vec::new();
    for _ in 0..3 {
        cycle(Knob::Watchdog, &mut config);
        seen.push(config.watchdog_secs);
    }
    // Thirty would be next after the longest, but the floor is 130.
    assert_eq!(seen, vec![130, 180, 130]);
}
