use yamato::job::AskOf;
use yamato::settings::Pending;
use yamato::{Config, Job, Protocol, Readout, Reply, Settings, StartupMode};

const PROTOCOL: Protocol = Protocol {
    mode_bios: 0,
    mode_smart: 1,
    mode_manual: 2,
    mode_keep: 9,
    status_handback_failed: 7,
};

const SECOND: u128 = 1_000_000_000;

fn config() -> Config {
    Config {
        poll_secs: 5,
        watchdog_secs: 60,
        standby_poll_secs: 30,
        manual_escape_c: 80,
        fahrenheit: false,
        startup_mode: StartupMode::Smart,
        log_enabled: false,
        log_max_mb: 8,
        show_window_on_start: true,
        single_fan: false,
        ec_layout: None,
        ignored_sensors: Vec::new(),
        profiles: Vec::new(),
        active_profile: "Quiet".to_string(),
    }
}

fn window() -> Settings {
    Settings::new("Quiet".to_string(), config(), PROTOCOL)
}

fn report(mode: u8, fan_ctrl: u8) -> Readout {
    Readout {
        mode_raw: mode,
        mode: PROTOCOL.mode_name(mode),
        fan_ctrl,
        hottest: Some((1, 61)),
        ..Readout::default()
    }
}

fn sample(window: &mut Settings, readout: Readout, now: u128) {
    let (live, _) = window.set_readout(readout, now, config(), false, false);
    assert_eq!(live, Some(61));
}

#[test]
fn a_new_window_has_heard_nothing() {
    let w = window();
    assert_eq!(w.editing, "Quiet");
    assert!(w.pending.is_none());
    assert_eq!(w.readout.mode, "");
    assert_eq!(w.readout.mode_raw, 0);
    assert_eq!(w.readout.sensors, [None; 12]);
    assert_eq!(w.readout.fan_rpm, [0, 0]);
    assert!(w.readout.hottest.is_none());
    assert!(!w.hover.picker && !w.hover.mode && !w.hover.level && !w.hover.profile);
    assert_eq!(w.hover.knob, None);
}

#[test]
fn two_mode_clicks_go_round() {
    assert_eq!(PROTOCOL.next_mode(0), 1);
    assert_eq!(PROTOCOL.next_mode(1), 0);
    assert_eq!(PROTOCOL.next_mode(2), 1);
    assert_eq!(PROTOCOL.next_mode(77), 0);
    assert_eq!(PROTOCOL.mode_name(1), "Smart");
    assert_eq!(PROTOCOL.mode_name(2), "Manual");
    assert_eq!(PROTOCOL.mode_name(0), "BIOS");
    assert_eq!(PROTOCOL.mode_name(200), "BIOS");
}

#[test]
fn cycling_never_takes_management_away() {
    let mut w = window();
    w.readout = report(1, 6);
    assert_eq!(w.next_mode(), (0, 0));
    w.readout = report(2, 6);
    assert_eq!(w.next_mode(), (1, 0));
    w.readout = report(0, 0x80);
    assert_eq!(w.next_mode(), (1, 0));
    w.readout = report(77, 3);
    assert_eq!(w.next_mode(), (0, 0));
}

#[test]
fn levels_go_round_without_zero() {
    let mut w = window();
    w.readout = report(2, 1);
    let mut seen = Vec::new();
    for _ in 0..7 {
        let (mode, level) = w.next_level();
        assert_eq!(mode, 2);
        seen.push(level);
        w.readout.fan_ctrl = level;
    }
    assert_eq!(seen, vec![2, 3, 4, 5, 6, 7, 1]);
}

#[test]
fn what_is_no_level_to_hold_counts_as_the_middle_one() {
    let mut w = window();
    for register in [0u8, 8, 0x40, 0x80, 255] {
        w.readout.fan_ctrl = register;
        assert_eq!(w.held_level(), 4);
        assert_eq!(w.next_level(), (2, 5));
    }
    w.readout.fan_ctrl = 7;
    assert_eq!(w.held_level(), 7);
}

#[test]
fn a_click_is_not_undone() {
    let mut w = window();
    sample(&mut w, report(0, 0x80), 0);

    let job = w.cycle_mode();
    let _ = w.step(job, Reply::Posted(Some(10 * SECOND)));
    assert_eq!(w.pending, Some(Pending { mode: 1, level: 0, deadline: 22 * SECOND }));
    assert_eq!(w.readout.mode, "Smart");

    // A report that still describes the mode being left.
    sample(&mut w, report(0, 0x80), 21 * SECOND);
    assert_eq!(w.readout.mode_raw, 1);
    assert_eq!(w.readout.mode, "Smart");
    assert_eq!(w.readout.fan_ctrl, 0x80);
    assert_eq!(w.next_mode(), (0, 0));
}

#[test]
fn an_unanswered_command_is_dropped() {
    let mut w = window();
    w.await_mode(2, 3, 0);
    assert_eq!(w.readout.fan_ctrl, 3);
    sample(&mut w, report(1, 5), 12 * SECOND - 1);
    assert_eq!((w.readout.mode_raw, w.readout.fan_ctrl), (2, 3));
    sample(&mut w, report(1, 5), 12 * SECOND);
    assert!(w.pending.is_none());
    assert_eq!((w.readout.mode_raw, w.readout.fan_ctrl), (1, 5));
}

#[test]
fn an_answered_command_is_forgotten() {
    let mut w = window();
    w.await_mode(2, 3, 0);
    // The mode alone is not enough for a hold.
    sample(&mut w, report(2, 5), SECOND);
    assert!(w.pending.is_some());
    assert_eq!(w.readout.fan_ctrl, 3);
    sample(&mut w, report(2, 3), 2 * SECOND);
    assert!(w.pending.is_none());
    sample(&mut w, report(0, 0x80), 3 * SECOND);
    assert_eq!(w.readout.mode, "BIOS");

    // For the other modes the level does not matter.
    w.await_mode(1, 0, 0);
    sample(&mut w, report(1, 6), SECOND);
    assert!(w.pending.is_none());
    assert_eq!(w.readout.fan_ctrl, 6);
}

#[test]
fn no_engine_means_nothing_is_shown() {
    let mut w = window();
    w.readout = report(0, 0x80);
    let job = w.cycle_mode();
    let _ = w.step(job, Reply::Posted(None));
    assert!(w.pending.is_none());
    assert_eq!(w.readout.mode, "BIOS");
}

#[test]
fn a_report_brings_the_file_and_the_pointer_with_it() {
    let mut w = window();
    let mut file = config();
    file.fahrenheit = true;
    let (live, _) = w.set_readout(Readout::default(), 0, file, true, false);
    assert_eq!(live, None);
    assert!(w.config.fahrenheit);
    assert!(w.hover.picker);
    assert_eq!(w.temp_text(21, &|c: i8, f: bool| c as i32 + f as i32, &|_: bool| "x".to_string()), "22x");
    assert_eq!(w.live_profile(), "Quiet");
}

fn posted(job: &Job) -> (u8, u8, String) {
    match &job.ask {
        AskOf::Post { mode, level, profile } => (*mode, *level, profile.clone()),
        _ => panic!("nothing is sent"),
    }
}

#[test]
fn clicks_are_sent_without_a_profile() {
    let mut w = window();
    sample(&mut w, report(1, 3), 0);
    let job = w.cycle_mode();
    assert_eq!(posted(&job), (0, 0, String::new()));
    let job = w.step(job, Reply::Posted(Some(5 * SECOND)));
    assert!(matches!(job.ask, AskOf::Repaint));
    assert_eq!(w.readout.mode, "BIOS");
    assert_eq!(w.pending.map(|p| p.deadline), Some(17 * SECOND));

    sample(&mut w, report(2, 3), 20 * SECOND);
    let job = w.cycle_level();
    assert_eq!(posted(&job), (2, 4, String::new()));
    let _ = w.step(job, Reply::Posted(Some(20 * SECOND)));
    assert_eq!((w.readout.mode, w.readout.fan_ctrl), ("Manual", 4));
    w.readout.fan_ctrl = 7;
    assert_eq!(posted(&w.cycle_level()), (2, 1, String::new()));
    // A click while a level is held lands on the curve.
    assert_eq!(posted(&w.cycle_mode()), (1, 0, String::new()));
}
