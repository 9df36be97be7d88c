use yamato::config::{settings_or, toggle_item};
use yamato::input::Response;
use yamato::job::{AskOf, ThenOf};
use yamato::menu::{
    menu_choice, menu_items, MenuChoice, MenuLine, PROFILE_DELETE, PROFILE_DUPLICATE,
    PROFILE_IMPORT, PROFILE_MENU_BASE, PROFILE_NEW, PROFILE_RENAME,
};
use yamato::{
    Config, CurvePoint, CurveSource, Job, Knob, Limits, Profile, ProfileAction, Protocol, Readout,
    Reply, Settings, StartupMode,
};

const PROTOCOL: Protocol = Protocol {
    mode_bios: 10,
    mode_smart: 11,
    mode_manual: 12,
    mode_keep: 13,
    status_handback_failed: 3,
};

fn point(temp: i8, level: u8) -> CurvePoint {
    CurvePoint { temp, level, hyst_up: 0, hyst_down: 2 }
}

fn profile(name: &str, level: u8) -> Profile {
    Profile { name: name.to_string(), points: vec![point(50, level)] }
}

fn file(active: &str, names: &[&str]) -> Config {
    Config {
        poll_secs: 5,
        watchdog_secs: 60,
        standby_poll_secs: 30,
        manual_escape_c: 80,
        fahrenheit: false,
        startup_mode: StartupMode::Bios,
        log_enabled: false,
        log_max_mb: 8,
        show_window_on_start: false,
        single_fan: false,
        ec_layout: None,
        ignored_sensors: Vec::new(),
        profiles: names.iter().enumerate().map(|(i, n)| profile(n, i as u8)).collect(),
        active_profile: active.to_string(),
    }
}

fn window() -> Settings {
    Settings::new("Quiet".to_string(), file("Quiet", &["Quiet", "Loud"]), PROTOCOL)
}

fn limits() -> Limits {
    Limits {
        poll_secs_min: 1,
        poll_secs_max: 60,
        standby_poll_secs_min: 5,
        standby_poll_secs_max: 120,
        manual_escape_min: 50,
        manual_escape_max: 95,
    }
}

fn is_over(job: &Job) -> bool {
    matches!(job.ask, AskOf::Done(_)) && matches!(job.purpose, ThenOf::Nothing)
}

fn failure(job: &Job) -> Option<&str> {
    match &job.ask {
        AskOf::Done(failure) => failure.as_deref(),
        _ => panic!("the job is not over"),
    }
}

fn saved(job: &Job) -> Config {
    match &job.ask {
        AskOf::Save(config) => config.clone(),
        _ => panic!("nothing is being saved"),
    }
}

/// Saves the curve on screen, and answers what comes after.
fn save_through(w: &mut Settings, job: Job, curve: Vec<CurvePoint>, on_disk: Config) -> (Config, Job) {
    assert!(matches!(job.ask, AskOf::Validate));
    let job = w.step(job, Reply::Validated(Ok(curve)));
    assert!(matches!(job.ask, AskOf::Load));
    let job = w.step(job, Reply::Loaded(Ok(on_disk)));
    let written = saved(&job);
    let job = w.step(job, Reply::Saved(Ok(())));
    assert!(matches!(job.ask, AskOf::MarkSaved));
    (written, w.step(job, Reply::Acknowledged))
}

#[test]
fn a_curve_is_written_to_the_profile_it_came_from() {
    let mut w = window();
    // The tray has switched in the meantime.
    let job = w.apply();
    let curve = vec![point(60, 5)];
    let (written, job) =
        save_through(&mut w, job, curve.clone(), file("Loud", &["Loud", "Quiet", "Quiet"]));

    assert_eq!(written.active_profile, "Loud");
    assert_eq!(written.profiles.len(), 3);
    assert_eq!(written.profiles[0], profile("Loud", 0));
    assert_eq!(written.profiles[1], Profile { name: "Quiet".to_string(), points: curve });
    assert_eq!(written.profiles[2], profile("Quiet", 2));
    assert!(matches!(job.ask, AskOf::Repaint));
    let job = w.step(job, Reply::Acknowledged);
    assert!(is_over(&job));
    assert_eq!(w.editing, "Quiet");
}

#[test]
fn a_profile_that_went_away_is_kept_when_saved() {
    let mut w = window();
    let job = w.apply();
    let curve = vec![point(60, 5)];
    let (written, _) = save_through(&mut w, job, curve.clone(), file("Loud", &["Loud"]));
    assert_eq!(written.profiles.len(), 2);
    assert_eq!(written.profiles[1].name, "Quiet");
    assert_eq!(written.profiles[1].points, curve);
}

#[test]
fn saving_only_when_there_is_something_to_save() {
    let mut w = window();
    assert!(is_over(&w.save_if_dirty(false)));
    let job = w.save_if_dirty(true);
    let (_, job) = save_through(&mut w, job, vec![], file("Quiet", &["Quiet"]));
    assert!(is_over(&job));
}

#[test]
fn a_failed_save_draws_the_window_again_and_says_why() {
    let mut w = window();
    let job = w.apply();
    let job = w.step(job, Reply::Validated(Err("Bad curve".to_string())));
    assert!(matches!(job.ask, AskOf::Repaint));
    let job = w.step(job, Reply::Acknowledged);
    assert_eq!(failure(&job), Some("Bad curve"));

    let job = w.apply();
    let job = w.step(job, Reply::Validated(Ok(vec![])));
    let job = w.step(job, Reply::Loaded(Err("No file".to_string())));
    assert!(matches!(job.ask, AskOf::Repaint));
    let job = w.step(job, Reply::Acknowledged);
    assert_eq!(failure(&job), Some("No file"));

    let job = w.apply();
    let job = w.step(job, Reply::Validated(Ok(vec![])));
    let job = w.step(job, Reply::Loaded(Ok(file("Quiet", &["Quiet"]))));
    let job = w.step(job, Reply::Saved(Err("Disk full".to_string())));
    assert!(matches!(job.ask, AskOf::Repaint));
    let job = w.step(job, Reply::Acknowledged);
    assert_eq!(failure(&job), Some("Disk full"));

    let job = w.apply();
    let (_, job) = save_through(&mut w, job, vec![], file("Quiet", &["Quiet"]));
    let job = w.step(job, Reply::Acknowledged);
    assert_eq!(failure(&job), None);

    let job = w.save_if_dirty(true);
    let job = w.step(job, Reply::Validated(Err("Bad curve".to_string())));
    assert_eq!(failure(&job), Some("Bad curve"));
    assert_eq!(w.editing, "Quiet");
    assert_eq!(w.config.active_profile, "Quiet");
}

fn open_menu(w: &mut Settings) -> Job {
    let job = w.show_profile_menu();
    assert!(matches!(job.ask, AskOf::Load));
    let job = w.step(job, Reply::Loaded(Ok(file("Loud", &["Quiet", "Loud", "Mine"]))));
    match &job.ask {
        AskOf::Menu(lines) => assert_eq!(lines.len(), 9),
        _ => panic!("no menu"),
    }
    job
}

#[test]
fn switching_saves_first_and_moves_the_editor_with_it() {
    let mut w = window();
    let job = open_menu(&mut w);
    let job = w.step(job, Reply::Chosen { id: 2001, dirty: false });
    let (written, job) =
        save_through(&mut w, job, vec![point(60, 5)], file("Quiet", &["Quiet", "Loud"]));
    assert_eq!(written.profiles[0].points, vec![point(60, 5)]);

    // The file is read again, because it has just been written.
    assert!(matches!(job.ask, AskOf::Load));
    let job = w.step(job, Reply::Loaded(Ok(written.clone())));
    let chosen = saved(&job);
    assert_eq!(chosen.active_profile, "Loud");
    assert_eq!(chosen.profiles, written.profiles);
    assert_eq!(w.editing, "Quiet");

    let job = w.step(job, Reply::Saved(Ok(())));
    match &job.ask {
        AskOf::Post { mode, level, profile } => {
            assert_eq!((*mode, *level, profile.as_str()), (13, 0, "Loud"));
        }
        _ => panic!("the engine was not told"),
    }
    let job = w.step(job, Reply::Posted(None));
    assert_eq!(w.editing, "Loud");
    assert_eq!(w.config.active_profile, "Loud");
    assert!(matches!(job.ask, AskOf::ShowActive));
    let job = w.step(job, Reply::Acknowledged);
    assert!(matches!(job.ask, AskOf::Repaint));
    let job = w.step(job, Reply::Acknowledged);
    assert!(is_over(&job));
}

#[test]
fn a_curve_that_cannot_be_saved_is_not_left() {
    let mut w = window();
    let job = open_menu(&mut w);
    let job = w.step(job, Reply::Chosen { id: 2001, dirty: true });
    let job = w.step(job, Reply::Validated(Err("Bad curve".to_string())));
    assert!(is_over(&job));
    assert_eq!(w.editing, "Quiet");

    let job = w.manage_profile(ProfileAction::Rename, true);
    let job = w.step(job, Reply::Validated(Err("Bad curve".to_string())));
    assert!(is_over(&job));

    let job = w.import_profile(true);
    let job = w.step(job, Reply::Validated(Ok(vec![])));
    let job = w.step(job, Reply::Loaded(Err("No file".to_string())));
    assert!(is_over(&job));
}

#[test]
fn a_switch_that_is_not_written_is_not_announced() {
    let mut w = window();
    let job = open_menu(&mut w);
    let job = w.step(job, Reply::Chosen { id: 2001, dirty: false });
    let (_, job) = save_through(&mut w, job, vec![], file("Quiet", &["Quiet", "Loud"]));
    let job = w.step(job, Reply::Loaded(Ok(file("Quiet", &["Quiet", "Loud"]))));
    let job = w.step(job, Reply::Saved(Err("Disk full".to_string())));
    assert!(is_over(&job));
    assert_eq!(w.config.active_profile, "Quiet");
}

#[test]
fn a_menu_needs_profiles_to_list() {
    let mut w = window();
    let job = w.show_profile_menu();
    let job = w.step(job, Reply::Loaded(Ok(file("", &[]))));
    assert!(is_over(&job));
    let job = w.show_profile_menu();
    let job = w.step(job, Reply::Loaded(Err("No file".to_string())));
    assert!(is_over(&job));
}

#[test]
fn the_menu_lists_profiles_and_then_what_can_be_done() {
    let names = vec!["Quiet".to_string(), "Loud".to_string()];
    let lines = menu_items(&names, &"Loud".to_string());
    let item = |id: usize, text: &str, checked: bool, enabled: bool| MenuLine::Item {
        id,
        text: text.to_string(),
        checked,
        enabled,
    };
    assert_eq!(
        lines,
        vec![
            item(2000, "Quiet", false, true),
            item(2001, "Loud", true, true),
            MenuLine::Separator,
            item(1900, "New...", false, true),
            item(1901, "Duplicate...", false, true),
            item(1902, "Rename...", false, true),
            item(1904, "Import from TPFanControl...", false, true),
            item(1903, "Delete", false, true),
        ]
    );

    let alone = vec!["Quiet".to_string()];
    let lines = menu_items(&alone, &"Quiet".to_string());
    assert_eq!(lines[lines.len() - 1], item(1903, "Delete", false, false));
}

#[test]
fn menu_answers_mean_their_lines() {
    let names = vec!["Quiet".to_string(), "Loud".to_string()];
    let selected = "Loud".to_string();
    let mean = |id: i32| menu_choice(id, &names, &selected);
    assert_eq!(mean(-1), MenuChoice::Nothing);
    assert_eq!(mean(0), MenuChoice::Nothing);
    assert_eq!(mean(7), MenuChoice::Nothing);
    assert_eq!(mean(1900), MenuChoice::Manage(ProfileAction::New));
    assert_eq!(mean(1901), MenuChoice::Manage(ProfileAction::Duplicate));
    assert_eq!(mean(1902), MenuChoice::Manage(ProfileAction::Rename));
    assert_eq!(mean(1903), MenuChoice::Manage(ProfileAction::Delete));
    assert_eq!(mean(1904), MenuChoice::Import);
    assert_eq!(mean(1999), MenuChoice::Nothing);
    assert_eq!(mean(2000), MenuChoice::Switch(0));
    assert_eq!(mean(2001), MenuChoice::Nothing);
    assert_eq!(mean(2002), MenuChoice::Nothing);
    assert_eq!(mean(i32::MAX), MenuChoice::Nothing);
}

#[test]
fn the_management_items_cannot_be_mistaken_for_a_profile() {
    for id in [PROFILE_NEW, PROFILE_DUPLICATE, PROFILE_RENAME, PROFILE_DELETE] {
        assert!(id < PROFILE_MENU_BASE);
    }
    assert!(PROFILE_IMPORT < PROFILE_MENU_BASE);
}

fn name_asked(job: &Job) -> (String, String) {
    match &job.ask {
        AskOf::Name { title, initial } => (title.clone(), initial.clone()),
        _ => panic!("no name is asked for"),
    }
}

#[test]
fn managing_asks_for_a_name() {
    let w = window();
    let asked = |action| name_asked(&w.manage_profile(action, false));
    assert_eq!(asked(ProfileAction::New), ("New profile".to_string(), "".to_string()));
    assert_eq!(
        asked(ProfileAction::Duplicate),
        ("Duplicate profile".to_string(), "Quiet copy".to_string())
    );
    assert_eq!(
        asked(ProfileAction::Rename),
        ("Rename profile".to_string(), "Quiet".to_string())
    );
}

#[test]
fn managing_saves_what_is_on_screen_first() {
    let mut w = window();
    let job = w.manage_profile(ProfileAction::Duplicate, true);
    let (_, job) = save_through(&mut w, job, vec![], file("Quiet", &["Quiet"]));
    assert_eq!(name_asked(&job).1, "Quiet copy");

    let job = w.step(job, Reply::Named(Some("Other".to_string())));
    match &job.ask {
        AskOf::EditProfiles { action, active, name } => {
            assert_eq!(*action, ProfileAction::Duplicate);
            assert_eq!(active, "Quiet");
            assert_eq!(name, "Other");
        }
        _ => panic!("nothing was done"),
    }
    let job = w.step(job, Reply::ProfilesEdited(Ok(file("Other", &["Quiet", "Other"]))));
    match &job.ask {
        AskOf::Post { mode, level, profile } => {
            assert_eq!((*mode, *level, profile.as_str()), (13, 0, "Other"));
        }
        _ => panic!("the engine was not told"),
    }
    let job = w.step(job, Reply::Posted(Some(1)));
    assert!(matches!(job.ask, AskOf::ShowActive));
    assert_eq!(w.editing, "Other");
    assert_eq!(w.config.profiles.len(), 2);
    // Announcing a profile is not a mode command.
    assert!(w.pending.is_none());
}

#[test]
fn managing_can_be_called_off_or_refused() {
    let mut w = window();
    let job = w.manage_profile(ProfileAction::New, false);
    let job = w.step(job, Reply::Named(None));
    assert!(is_over(&job));

    let job = w.manage_profile(ProfileAction::New, false);
    let job = w.step(job, Reply::Named(Some("Quiet".to_string())));
    let job = w.step(job, Reply::ProfilesEdited(Err("There is one already.".to_string())));
    match &job.ask {
        AskOf::Say(text) => assert_eq!(text, "There is one already."),
        _ => panic!("nothing was said"),
    }
    let job = w.step(job, Reply::Acknowledged);
    assert!(is_over(&job));
}

#[test]
fn deleting_asks_and_saves_nothing() {
    let mut w = window();
    let job = w.manage_profile(ProfileAction::Delete, true);
    match &job.ask {
        AskOf::Confirm(text) => assert_eq!(
            text,
            "Delete the profile \"Quiet\"?\n\nIts curve goes with it, and there is no undo."
        ),
        _ => panic!("no question"),
    }
    let job = w.step(job, Reply::Answered(true));
    match &job.ask {
        AskOf::EditProfiles { action, active, name } => {
            assert_eq!(*action, ProfileAction::Delete);
            assert_eq!((active.as_str(), name.as_str()), ("Quiet", "Quiet"));
        }
        _ => panic!("nothing was done"),
    }

    let job = w.manage_profile(ProfileAction::Delete, false);
    let job = w.step(job, Reply::Answered(false));
    assert!(is_over(&job));
}

#[test]
fn an_import_is_adopted_and_summed_up() {
    let mut w = window();
    let job = w.import_profile(false);
    assert!(matches!(job.ask, AskOf::Import));
    let job = w.step(
        job,
        Reply::Imported(Some(Ok((file("Old", &["Quiet", "Old"]), "Three points.".to_string())))),
    );
    let job = w.step(job, Reply::Posted(None));
    assert_eq!(w.editing, "Old");
    let job = w.step(job, Reply::Acknowledged);
    assert!(matches!(job.ask, AskOf::Repaint));
    let job = w.step(job, Reply::Acknowledged);
    match &job.ask {
        AskOf::Say(text) => assert_eq!(text, "Three points."),
        _ => panic!("nothing was said"),
    }

    let job = w.import_profile(false);
    let job = w.step(job, Reply::Imported(Some(Err("No curve in it.".to_string()))));
    assert!(matches!(job.ask, AskOf::Say(_)));
    let job = w.import_profile(false);
    let job = w.step(job, Reply::Imported(None));
    assert!(is_over(&job));
}

#[test]
fn discarding_goes_back_to_what_is_stored() {
    let mut w = window();
    assert!(is_over(&w.discard_edits(false)));

    let job = w.discard_edits(true);
    let job = w.step(job, Reply::Loaded(Ok(file("Loud", &["Loud", "Quiet"]))));
    match &job.ask {
        AskOf::ShowCurve { source, .. } => assert_eq!(*source, CurveSource::Profile(1)),
        _ => panic!("nothing is shown"),
    }
    let job = w.step(job, Reply::Shown(true));
    assert!(matches!(job.ask, AskOf::Repaint));

    let job = w.discard_edits(true);
    let job = w.step(job, Reply::Loaded(Ok(file("Loud", &["Loud"]))));
    match &job.ask {
        AskOf::ShowCurve { source, .. } => assert_eq!(*source, CurveSource::Active),
        _ => panic!("nothing is shown"),
    }
    let job = w.step(job, Reply::Shown(false));
    assert!(is_over(&job));
}

#[test]
fn the_window_catches_up_with_a_switch_in_the_tray() {
    let mut w = window();
    let (_, job) = w.set_readout(Readout::default(), 0, file("Loud", &["Quiet", "Loud"]), false, true);
    let job = w.step(job, Reply::Loaded(Ok(file("Loud", &["Quiet", "Loud"]))));
    let (written, job) =
        save_through(&mut w, job, vec![point(70, 6)], file("Loud", &["Quiet", "Loud"]));
    assert_eq!(written.profiles[0].points, vec![point(70, 6)]);
    match &job.ask {
        AskOf::ShowCurve { source, .. } => assert_eq!(*source, CurveSource::Profile(1)),
        _ => panic!("nothing is shown"),
    }
    let job = w.step(job, Reply::Shown(true));
    assert_eq!(w.editing, "Loud");
    assert!(matches!(job.ask, AskOf::Repaint));
}

#[test]
fn a_deleted_profile_does_not_come_back() {
    let mut w = window();
    let (_, job) = w.set_readout(Readout::default(), 0, file("Loud", &["Loud"]), false, true);
    let job = w.step(job, Reply::Loaded(Ok(file("Loud", &["Loud"]))));
    // Straight on to the other profile, with nothing saved.
    assert!(matches!(job.ask, AskOf::ShowCurve { .. }));
    let job = w.step(job, Reply::Shown(false));
    assert_eq!(w.editing, "Quiet");
    assert!(matches!(job.ask, AskOf::Repaint));
}

#[test]
fn nothing_to_catch_up_with_only_draws() {
    let mut w = window();
    let (_, job) = w.set_readout(Readout::default(), 0, file("Quiet", &["Quiet"]), false, true);
    assert!(matches!(job.ask, AskOf::Repaint));
    let (_, job) = w.set_readout(Readout::default(), 0, file("", &["Quiet"]), false, true);
    assert!(matches!(job.ask, AskOf::Repaint));
    let (_, job) = w.set_readout(Readout::default(), 0, file("Gone", &["Quiet"]), false, false);
    let job = w.step(job, Reply::Loaded(Ok(file("Gone", &["Quiet"]))));
    assert!(matches!(job.ask, AskOf::Repaint));
    let (_, job) = w.set_readout(Readout::default(), 0, file("Gone", &["Quiet"]), false, false);
    let job = w.step(job, Reply::Loaded(Err("No file".to_string())));
    assert!(matches!(job.ask, AskOf::Repaint));
    assert_eq!(w.editing, "Quiet");
}

#[test]
fn changing_a_setting_writes_it_and_shows_it() {
    let mut w = window();
    let floor = |poll: u32, standby: u32| poll + standby + 100;
    assert!(is_over(&w.change_setting(Knob::Poll, None, &limits(), &floor)));

    let job = w.change_setting(Knob::Poll, Some(file("Quiet", &["Quiet"])), &limits(), &floor);
    let written = saved(&job);
    assert_eq!((written.poll_secs, written.watchdog_secs), (10, 140));
    let job = w.step(job, Reply::Saved(Ok(())));
    assert!(matches!(job.ask, AskOf::Repaint));
    assert_eq!(w.config.poll_secs, 10);

    let job = w.change_setting(Knob::Logging, Some(file("Quiet", &["Quiet"])), &limits(), &floor);
    let job = w.step(job, Reply::Saved(Err("Disk full".to_string())));
    assert!(is_over(&job));
    assert!(!w.config.log_enabled);
}

#[test]
fn a_sensor_is_left_out_and_taken_back() {
    let mut w = window();
    let mut on_disk = file("Quiet", &["Quiet"]);
    on_disk.ignored_sensors = vec![2, 7];

    let job = w.toggle_ignored(5, Some(on_disk.clone()));
    let written = saved(&job);
    assert_eq!(written.ignored_sensors, vec![2, 5, 7]);
    let _ = w.step(job, Reply::Saved(Ok(())));
    assert_eq!(w.config.ignored_sensors, vec![2, 5, 7]);

    let job = w.toggle_ignored(5, Some(written));
    assert_eq!(saved(&job).ignored_sensors, vec![2, 7]);
    assert!(is_over(&w.toggle_ignored(5, None)));
}

#[test]
fn toggling_sorts_what_it_adds_to_and_takes_out_the_first() {
    let mut list = vec![9, 1, 9, 4];
    toggle_item(&mut list, 9);
    assert_eq!(list, vec![1, 9, 4]);
    toggle_item(&mut list, 3);
    assert_eq!(list, vec![1, 3, 4, 9]);
    let mut none = Vec::new();
    toggle_item(&mut none, 0);
    assert_eq!(none, vec![0]);
}

#[test]
fn an_answer_to_another_question_ends_the_job() {
    let mut w = window();
    let job = w.apply();
    let job = w.step(job, Reply::Answered(true));
    assert!(is_over(&job));
    let job = w.step(job, Reply::Acknowledged);
    assert!(is_over(&job));
}

#[test]
fn messages_start_their_jobs() {
    let mut w = window();
    w.readout.mode_raw = 12;
    w.readout.fan_ctrl = 3;
    assert!(matches!(w.begin(Response::OpenProfileMenu, true).purpose, ThenOf::MenuShow));
    let sent = |job: &Job| match &job.ask {
        AskOf::Post { mode, level, profile } => (*mode, *level, profile.clone()),
        _ => panic!("nothing is sent"),
    };
    assert_eq!(sent(&w.begin(Response::CycleMode, true)), (11, 0, String::new()));
    assert_eq!(sent(&w.begin(Response::CycleLevel, false)), (12, 4, String::new()));
    assert!(matches!(w.begin(Response::DiscardEdits, true).purpose, ThenOf::DiscardFind));
    assert!(is_over(&w.begin(Response::DiscardEdits, false)));
    assert!(matches!(w.begin(Response::Apply, false).ask, AskOf::Validate));
    for response in [Response::Paint, Response::Hover, Response::Forget, Response::Grab] {
        assert!(is_over(&w.begin(response, true)));
    }

    // Closing saves first, and only when there is something to save.
    assert!(is_over(&w.begin(Response::Close, false)));
    let job = w.begin(Response::Close, true);
    let (written, job) =
        save_through(&mut w, job, vec![point(60, 5)], file("Loud", &["Loud", "Quiet"]));
    assert_eq!(written.profiles[1].points, vec![point(60, 5)]);
    assert!(is_over(&job));
}

#[test]
fn settings_that_cannot_be_read_are_the_defaults() {
    let defaults = file("Default", &["Default"]);
    let on_disk = file("Loud", &["Loud"]);
    assert_eq!(settings_or(Ok(on_disk.clone()), defaults.clone()), on_disk);
    assert_eq!(settings_or(Err("No file".to_string()), defaults.clone()), defaults);
}
