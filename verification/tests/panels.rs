use yamato::panel::{
    actions, ctrl_string, curve_notice, fan_string, grid_line, grid_lines, heading, point_notice,
    text_style, window_title,
    Align, ReadoutPanel, RowRole, StatusWords, TextRole, Tone, TEXT_ROLES,
};
use yamato::point::{curve_runs, curve_waits, point_marks, PointMark, Run, Wait};
use yamato::text::{decimal_string, hex_byte_string};
use yamato::{Config, CurvePoint, Knob, Protocol, Readout, Settings, StartupMode, SENSOR_NAMES};

const PROTOCOL: Protocol = Protocol {
    mode_bios: 0,
    mode_smart: 1,
    mode_manual: 2,
    mode_keep: 3,
    status_handback_failed: 9,
};

fn display(celsius: i8, fahrenheit: bool) -> i32 {
    if fahrenheit { celsius as i32 * 2 + 30 } else { celsius as i32 }
}

fn unit(fahrenheit: bool) -> String {
    if fahrenheit { "F".to_string() } else { "C".to_string() }
}

fn window() -> Settings {
    let config = Config {
        poll_secs: 5,
        watchdog_secs: 60,
        standby_poll_secs: 30,
        manual_escape_c: 80,
        fahrenheit: false,
        startup_mode: StartupMode::Smart,
        log_enabled: false,
        log_max_mb: 8,
        show_window_on_start: true,
        single_fan: false,
        ec_layout: None,
        ignored_sensors: vec![1, 3],
        profiles: Vec::new(),
        active_profile: "Quiet".to_string(),
    };
    let mut w = Settings::new("Quiet".to_string(), config, PROTOCOL);
    w.readout.mode = "Smart";
    w.readout.mode_raw = 1;
    w.readout.fan_ctrl = 5;
    w.readout.fan_rpm = [3200, 0];
    w.readout.profile = "Quiet".to_string();
    w.readout.sensors[0] = Some(61);
    w.readout.sensors[1] = Some(70);
    w.readout.hottest = Some((0, 61));
    w
}

const WORDS: StatusWords = StatusWords {
    status: Some(("Cannot reach it", "Trying again.")),
    single_fan: "Set Fans to Single.",
    layout: Some("Try Compatibility mode."),
};

#[test]
fn readings_are_on_screen() {
    let mut w = window();
    w.hover.mode = true;
    let live = match w.readout_panel(&WORDS, &display, &unit) {
        ReadoutPanel::Live(live) => live,
        ReadoutPanel::Fault(_) => panic!("there is no fault"),
    };
    assert_eq!(live.headline.text, "61C");
    assert_eq!(live.headline.tone, Tone::Band(61));
    assert_eq!(live.headline.caption, "hottest sensor \u{00b7} CPU");
    let rows: Vec<(&str, &str, Tone, bool, RowRole)> = live
        .rows
        .iter()
        .map(|r| (r.label, r.value.as_str(), r.tone, r.lit, r.role))
        .collect();
    assert_eq!(
        rows,
        vec![
            ("Mode", "Smart", Tone::Yellow, true, RowRole::Mode),
            ("Profile", "Quiet", Tone::Yellow, false, RowRole::Profile),
            ("EC Ctrl", "0x05 (Level 5)", Tone::Text, false, RowRole::Reading),
            ("Fan", "3200 rpm", Tone::Text, false, RowRole::Reading),
        ]
    );
    assert_eq!(live.sensors.len(), 12);
    let s = &live.sensors[0];
    assert_eq!((s.name, s.name_tone, s.value.as_str(), s.tone, s.struck),
        ("CPU", Tone::Text, "61C", Tone::Band(61), false));
    let s = &live.sensors[1];
    assert_eq!((s.name, s.name_tone, s.value.as_str(), s.tone, s.struck),
        ("GPU", Tone::Faint, "70C", Tone::Faint, true));
    let s = &live.sensors[2];
    assert_eq!((s.name, s.name_tone, s.value.as_str(), s.tone, s.struck),
        ("Board", Tone::Dim, "--", Tone::Faint, false));
    let s = &live.sensors[3];
    assert!(s.struck);
    assert_eq!(live.sensors[11].name, SENSOR_NAMES[11]);
}

#[test]
fn the_level_row_is_there_while_a_level_is_held() {
    let mut w = window();
    w.readout.mode_raw = 2;
    w.readout.fan_ctrl = 6;
    w.hover.level = true;
    match w.readout_panel(&WORDS, &display, &unit) {
        ReadoutPanel::Live(live) => {
            let last = &live.rows[live.rows.len() - 1];
            assert_eq!((last.label, last.value.as_str(), last.lit), ("Level", "6", true));
            assert_eq!(last.role, RowRole::Level);
        }
        ReadoutPanel::Fault(_) => panic!("there is no fault"),
    }
}

#[test]
fn a_silent_engine_shows_dashes() {
    let mut w = window();
    w.readout = Readout::default();
    match w.readout_panel(&WORDS, &display, &unit) {
        ReadoutPanel::Live(live) => {
            assert_eq!(live.headline.text, "--\u{00b0}");
            assert_eq!(live.headline.caption, "waiting for a sensor reading");
            assert_eq!(live.rows[0].value, "--");
            assert_eq!(live.rows[0].tone, Tone::Faint);
            assert_eq!(live.rows[2].value, "0x00 (Level 0)");
            assert_eq!(live.rows[3].value, "0 rpm");
        }
        ReadoutPanel::Fault(_) => panic!("there is no fault"),
    }
    w.readout.hottest = Some((40, -2));
    w.config.fahrenheit = true;
    match w.readout_panel(&WORDS, &display, &unit) {
        ReadoutPanel::Live(live) => {
            assert_eq!(live.headline.text, "26F");
            assert_eq!(live.headline.caption, "hottest sensor \u{00b7} sensor");
        }
        ReadoutPanel::Fault(_) => panic!("there is no fault"),
    }
}

#[test]
fn a_fault_is_a_state() {
    let mut w = window();
    w.readout.fault = true;
    let fault = |w: &Settings, words: &StatusWords| match w.readout_panel(words, &display, &unit) {
        ReadoutPanel::Fault(fault) => fault,
        ReadoutPanel::Live(_) => panic!("there is a fault"),
    };
    let panel = fault(&w, &WORDS);
    assert_eq!((panel.headline, panel.detail), ("Cannot reach it", "Trying again."));
    assert_eq!(panel.tone, Tone::Dim);
    assert_eq!(panel.way_out, Some("Try Compatibility mode."));

    w.readout.status = 9;
    w.readout.single_fan_hint = true;
    let unknown = StatusWords { status: None, layout: None, ..WORDS };
    let panel = fault(&w, &unknown);
    assert_eq!(panel.headline, "Controller unavailable");
    assert_eq!(panel.detail, "Readings return when it responds.");
    assert_eq!(panel.tone, Tone::AccentBright);
    assert_eq!(panel.way_out, Some("Set Fans to Single."));

    w.readout.single_fan_hint = false;
    assert_eq!(fault(&w, &unknown).way_out, None);
}

#[test]
fn registers_and_speeds_in_words() {
    assert_eq!(ctrl_string(0x80), "0x80 (BIOS)");
    assert_eq!(ctrl_string(0x40), "0x40 (Disengaged)");
    assert_eq!(ctrl_string(7), "0x07 (Level 7)");
    assert_eq!(ctrl_string(8), "0x08");
    assert_eq!(ctrl_string(0xaf), "0xaf");
    assert_eq!(fan_string(3200, 3100), "3200 / 3100 rpm");
    assert_eq!(fan_string(0, 0), "0 rpm");
    assert_eq!(hex_byte_string(0x0c), "0c");
    assert_eq!(decimal_string(i64::MIN), "-9223372036854775808");
    assert_eq!(decimal_string(i64::MAX), "9223372036854775807");
    assert_eq!(decimal_string(0), "0");
}

#[test]
fn the_hint_gives_way_to_what_the_pointer_is_on() {
    let mut w = window();
    let standing =
        "Click a value to change it. Right-click a sensor to leave it out of the decision.";
    assert_eq!(w.hint(), standing);
    w.hover.knob = Some(40);
    assert_eq!(w.hint(), standing);
    w.hover.knob = Some(0);
    assert_eq!(w.hint(), "How often the sensors are read and the fan level decided again.");
    w.hover.profile = true;
    assert_eq!(w.hint(), "Click Profile to switch curves, or to add, rename or delete one.");
    w.hover.level = true;
    assert_eq!(
        w.hint(),
        "Click Level to step it, 1 to 7. A held level turns the firmware's own \
         thermal management off."
    );
    w.hover.mode = true;
    assert_eq!(
        w.hint(),
        "Click Mode for the firmware, your curve, or a level you hold yourself."
    );
}

#[test]
fn the_settings_rows_in_order() {
    let w = window();
    let rows = w.tuning_rows(&display, &unit);
    assert_eq!(rows.len(), 9);
    assert_eq!((rows[0].label, rows[0].value.as_str()), ("Poll", "5 s"));
    assert_eq!((rows[2].label, rows[2].value.as_str()), ("Manual escape", "80C"));
    assert_eq!(rows[8].role, RowRole::Setting(8));
    assert_eq!(rows[8].tone, Tone::Yellow);
}

#[test]
fn the_chosen_point_in_words() {
    let w = window();
    let point = CurvePoint { temp: 70, level: 4, hyst_up: 2, hyst_down: 0 };
    let panel = w.point_panel(&point, false, &display, &unit);
    assert_eq!(panel.sentence, "At 70C, runs the fan at 4.");
    assert_eq!(panel.rows.len(), 2);
    assert_eq!((panel.rows[0].label, panel.rows[0].value.as_str()), ("Slows down", "right away"));
    assert_eq!(
        (panel.rows[1].label, panel.rows[1].value.as_str()),
        ("Speeds up", "2\u{00b0} hotter")
    );
    let panel = w.point_panel(&point, true, &display, &unit);
    assert_eq!(panel.sentence, "At 70C, hands over to the BIOS.");
}

#[test]
fn headings_buttons_and_labels() {
    let h = heading(None, false);
    assert_eq!(h.text, "Drag to move, double-click to add, right-click to remove");
    assert_eq!((h.tone, h.dot), (Tone::Faint, false));
    let h = heading(None, true);
    assert_eq!((h.text.as_str(), h.tone, h.dot), ("Unsaved changes", Tone::Dim, true));
    let h = heading(Some("Too steep".to_string()), true);
    assert_eq!((h.text.as_str(), h.tone, h.dot), ("Too steep", Tone::AccentBright, false));

    let a = actions(true);
    assert_eq!((a.fill, a.edge, a.ink, a.discard), (Tone::Accent, Tone::Glow, Tone::Text, true));
    assert_eq!(a.caption, "Ctrl+S saves, Escape discards");
    let a = actions(false);
    assert_eq!((a.fill, a.edge, a.ink, a.discard), (Tone::Surface, Tone::Border, Tone::Faint, false));
    assert_eq!(a.caption, "Ctrl+S or Enter saves");

    let mut w = window();
    assert_eq!(w.live_label(61, &display, &unit), "now 61C");
    let p = w.picker();
    assert_eq!((p.name.as_str(), p.edge, p.wash), ("Quiet", Tone::Border, false));
    w.hover.picker = true;
    let p = w.picker();
    assert_eq!((p.edge, p.wash), (Tone::Glow, true));
    assert_eq!(window_title("1.2.3"), "Yamato 1.2.3");
}

#[test]
fn grid_lines_run_up_to_the_firmware() {
    let lines = grid_lines(8);
    let captions: Vec<&str> = lines.iter().map(|l| l.caption.as_str()).collect();
    assert_eq!(captions, vec!["0", "1", "2", "3", "4", "5", "6", "7", "BIOS"]);
    assert!(lines[0].strong && !lines[0].bios);
    assert!(!lines[7].strong && !lines[7].bios);
    assert!(lines[8].strong && lines[8].bios);
    assert_eq!((lines[3].tone, lines[8].tone), (Tone::Faint, Tone::Dim));
    assert!(grid_lines(-1).is_empty());
    assert_eq!(grid_line(-3).caption, "-3");
}

#[test]
fn a_curve_is_steps() {
    let points = vec![
        CurvePoint { temp: 40, level: 0, hyst_up: 9, hyst_down: 9 },
        CurvePoint { temp: 60, level: 3, hyst_up: 0, hyst_down: 5 },
        CurvePoint { temp: 80, level: 128, hyst_up: 3, hyst_down: 2 },
    ];
    assert_eq!(
        curve_runs(&points),
        vec![
            Run { from: 40, until: Some(60), level: 0, next_level: Some(3) },
            Run { from: 60, until: Some(80), level: 3, next_level: Some(128) },
            Run { from: 80, until: None, level: 128, next_level: None },
        ]
    );
    let wait = |at, from, until, upper_level, lower_level, cooling| Wait {
        at,
        from,
        until,
        upper_level,
        lower_level,
        cooling,
    };
    assert_eq!(
        curve_waits(&points),
        vec![
            wait(60, 55, 60, 3, 0, true),
            wait(80, 78, 80, 128, 3, true),
            wait(80, 80, 83, 128, 3, false),
        ]
    );
    assert_eq!(
        point_marks(&points, Some(1)),
        vec![
            PointMark { temp: 40, level: 0, chosen: false },
            PointMark { temp: 60, level: 3, chosen: true },
            PointMark { temp: 80, level: 128, chosen: false },
        ]
    );
    assert!(curve_runs(&Vec::new()).is_empty());
    assert!(curve_waits(&Vec::new()).is_empty());
}

#[test]
fn every_role_has_its_look() {
    let sizes: Vec<u32> = TEXT_ROLES.iter().map(|r| text_style(*r).size).collect();
    assert_eq!(sizes, vec![20, 34, 12, 12, 11, 11, 11, 10, 11, 12, 11, 12]);
    let elided: Vec<TextRole> =
        TEXT_ROLES.iter().copied().filter(|r| text_style(*r).elide).collect();
    assert_eq!(elided, vec![TextRole::Hint, TextRole::Picker]);
    let value = text_style(TextRole::Value);
    assert_eq!((value.align, value.semi_bold, value.middle, value.display_face),
        (Align::Trailing, true, true, false));
    let axis = text_style(TextRole::Axis);
    assert_eq!((axis.align, axis.semi_bold, axis.middle), (Align::Center, false, false));
}

#[test]
fn the_escape_row_uses_the_unit_on_screen() {
    let mut w = window();
    for fahrenheit in [false, true] {
        w.config.fahrenheit = fahrenheit;
        let row = Knob::Escape.value(&w.config, &display, &unit);
        assert_eq!(row, w.temp_text(w.config.manual_escape_c, &display, &unit));
        assert_eq!(row, if fahrenheit { "190F" } else { "80C" });
    }
}

#[test]
fn what_is_empty_says_so() {
    assert_eq!(
        curve_notice(&Vec::new()),
        Some(("No curve points", "Double-click the graph to add one"))
    );
    let point = CurvePoint { temp: 50, level: 2, hyst_up: 0, hyst_down: 0 };
    assert_eq!(curve_notice(&vec![point]), None);
    assert_eq!(
        point_notice(None),
        "Click a point on the graph to change how quickly the fan follows it."
    );
    assert_eq!(
        point_notice(Some(point)),
        "Bigger numbers mean the fan waits longer before changing speed, so it \
         changes less often. The shaded bands on the graph are the waiting."
    );
}

#[test]
fn a_wait_may_reach_below_any_temperature() {
    let at = |temp: i8, hyst_down: i8| CurvePoint { temp, level: 1, hyst_up: 0, hyst_down };
    let waits = curve_waits(&vec![at(-128, 0), at(-127, 5)]);
    assert_eq!((waits[0].from, waits[0].until), (-132, -127));
}
