use windows_sys::Win32::UI::Input::KeyboardAndMouse::{VK_ESCAPE, VK_RETURN, VK_S};
use windows_sys::Win32::UI::WindowsAndMessaging::{
    WM_CLOSE, WM_DESTROY, WM_DPICHANGED, WM_GETMINMAXINFO, WM_KEYDOWN, WM_LBUTTONDBLCLK,
    WM_LBUTTONDOWN, WM_LBUTTONUP, WM_MOUSEMOVE, WM_PAINT, WM_RBUTTONUP, WM_SIZE, WM_TIMER,
};
use yamato::input::{
    after_grab, first_marked, pointer_position, respond, tuning_hit, Facts, Response,
};
use yamato::{Config, Knob, PointKnob, Protocol, Settings, StartupMode};

const NOWHERE: Facts = Facts {
    on_picker: false,
    on_profile_row: false,
    on_mode_row: false,
    on_level_row: false,
    on_discard: false,
    on_save: false,
    on_tuning_rows: [false; 9],
    on_point_rows: [false; 2],
    on_canvas: false,
    sensor_row: None,
    curve_point: None,
    dirty: false,
    dragging: false,
    key: 0,
    ctrl: false,
};

fn at(message: u32, facts: Facts) -> Response {
    respond(message, false, true, &facts)
}

#[test]
fn messages_have_the_numbers_of_the_system() {
    assert_eq!(at(WM_PAINT, NOWHERE), Response::Paint);
    assert_eq!(at(WM_SIZE, NOWHERE), Response::Resize);
    assert_eq!(at(WM_DPICHANGED, NOWHERE), Response::AdoptRectangle);
    assert_eq!(at(WM_GETMINMAXINFO, NOWHERE), Response::AnswerMinimum);
    assert_eq!(at(WM_LBUTTONDOWN, NOWHERE), Response::Grab);
    assert_eq!(at(WM_MOUSEMOVE, NOWHERE), Response::Hover);
    assert_eq!(at(WM_LBUTTONUP, NOWHERE), Response::Nothing);
    assert_eq!(at(WM_LBUTTONDBLCLK, NOWHERE), Response::Nothing);
    assert_eq!(at(WM_RBUTTONUP, NOWHERE), Response::Nothing);
    assert_eq!(at(WM_KEYDOWN, NOWHERE), Response::Nothing);
    assert_eq!(at(WM_CLOSE, NOWHERE), Response::Close);
    assert_eq!(at(WM_DESTROY, NOWHERE), Response::Forget);
    assert_eq!(at(WM_TIMER, NOWHERE), Response::PassOn);
}

#[test]
fn a_dialog_is_not_interrupted() {
    assert_eq!(respond(WM_CLOSE, true, true, &NOWHERE), Response::Nothing);
    assert_eq!(respond(WM_PAINT, true, true, &NOWHERE), Response::PassOn);
    assert_eq!(respond(WM_LBUTTONDOWN, true, false, &NOWHERE), Response::PassOn);
    assert_eq!(respond(WM_PAINT, false, false, &NOWHERE), Response::PassOn);
}

#[test]
fn a_press_goes_to_the_first_thing_under_it() {
    let mut rows = [false; 9];
    rows[3] = true;
    rows[5] = true;
    let everything = Facts {
        on_picker: true,
        on_profile_row: true,
        on_mode_row: true,
        on_level_row: true,
        on_discard: true,
        on_save: true,
        on_tuning_rows: rows,
        on_point_rows: [false, true],
        on_canvas: true,
        dirty: true,
        ..NOWHERE
    };
    let press = |facts| at(WM_LBUTTONDOWN, facts);
    assert_eq!(press(everything), Response::OpenProfileMenu);
    let f = Facts { on_picker: false, ..everything };
    assert_eq!(press(f), Response::OpenProfileMenu);
    let f = Facts { on_profile_row: false, ..f };
    assert_eq!(press(f), Response::CycleMode);
    let f = Facts { on_mode_row: false, ..f };
    assert_eq!(press(f), Response::CycleLevel);
    let f = Facts { on_level_row: false, ..f };
    assert_eq!(press(f), Response::DiscardEdits);
    let f = Facts { on_discard: false, ..f };
    assert_eq!(press(f), Response::Apply);
    assert_eq!(press(Facts { dirty: false, ..f }), Response::Nothing);
    let f = Facts { on_save: false, ..f };
    assert_eq!(press(f), Response::ChangeSetting(Knob::StandbyPoll));
    let f = Facts { on_tuning_rows: [false; 9], ..f };
    assert_eq!(press(f), Response::StepPoint(PointKnob::SpeedUp));
    let f = Facts { on_point_rows: [true, true], ..f };
    assert_eq!(press(f), Response::StepPoint(PointKnob::SlowDown));
    let f = Facts { on_point_rows: [false; 2], ..f };
    assert_eq!(press(f), Response::Grab);
}

#[test]
fn a_press_on_bare_graph_puts_the_selection_down() {
    assert_eq!(after_grab(true, true), Response::HoldPointer);
    assert_eq!(after_grab(true, false), Response::HoldPointer);
    assert_eq!(after_grab(false, true), Response::Deselect);
    assert_eq!(after_grab(false, false), Response::Nothing);
}

#[test]
fn the_other_buttons_and_keys() {
    let dragging = Facts { dragging: true, ..NOWHERE };
    assert_eq!(at(WM_MOUSEMOVE, dragging), Response::Drag);
    assert_eq!(at(WM_LBUTTONUP, dragging), Response::Release);
    assert_eq!(at(WM_LBUTTONDBLCLK, Facts { on_canvas: true, ..NOWHERE }), Response::AddPoint);
    let both = Facts { sensor_row: Some(4), curve_point: Some(1), ..NOWHERE };
    assert_eq!(at(WM_RBUTTONUP, both), Response::ToggleIgnored(4));
    assert_eq!(at(WM_RBUTTONUP, Facts { sensor_row: None, ..both }), Response::RemovePoint(1));

    let key = |key, ctrl| at(WM_KEYDOWN, Facts { key, ctrl, ..NOWHERE });
    assert_eq!(key(VK_S as usize, true), Response::Apply);
    assert_eq!(key(VK_S as usize, false), Response::Nothing);
    assert_eq!(key(VK_RETURN as usize, false), Response::Apply);
    assert_eq!(key(VK_ESCAPE as usize, false), Response::DiscardEdits);
    assert_eq!(key(0x41, true), Response::Nothing);
}

#[test]
fn pointer_positions_are_signed() {
    assert_eq!(pointer_position(0), (0, 0));
    assert_eq!(pointer_position(0x0014_000a), (10, 20));
    assert_eq!(pointer_position(0x0014_ffff), (-1, 20));
    assert_eq!(pointer_position(0xfffe_0003), (3, -2));
    assert_eq!(pointer_position(-1), (-1, -1));
    assert_eq!(pointer_position(0x7fff_8000), (-32768, 32767));
}

#[test]
fn the_first_row_under_the_pointer_counts() {
    assert_eq!(first_marked(&[]), None);
    assert_eq!(first_marked(&[false, true, true]), Some(1));
    let mut rows = [false; 9];
    assert_eq!(tuning_hit(&rows), None);
    rows[8] = true;
    assert_eq!(tuning_hit(&rows), Some(Knob::EcLayout));
}

#[test]
fn the_window_is_drawn_again_only_when_something_lights_up() {
    let config = Config {
        poll_secs: 5,
        watchdog_secs: 60,
        standby_poll_secs: 30,
        manual_escape_c: 80,
        fahrenheit: false,
        startup_mode: StartupMode::Smart,
        log_enabled: false,
        log_max_mb: 8,
        show_window_on_start: true,
        single_fan: false,
        ec_layout: None,
        ignored_sensors: Vec::new(),
        profiles: Vec::new(),
        active_profile: String::new(),
    };
    let protocol = Protocol {
        mode_bios: 0,
        mode_smart: 1,
        mode_manual: 2,
        mode_keep: 3,
        status_handback_failed: 1,
    };
    let mut w = Settings::new(String::new(), config, protocol);
    let mut rows = [false; 9];
    assert!(!w.point_at(false, false, false, false, &rows));
    assert!(w.point_at(true, false, false, false, &rows));
    assert!(!w.point_at(true, false, false, false, &rows));
    rows[2] = true;
    assert!(w.point_at(true, false, false, false, &rows));
    assert_eq!(w.hover.knob, Some(2));
    assert!(w.point_at(false, true, true, true, &[false; 9]));
    assert!(w.hover.mode && w.hover.level && w.hover.profile && !w.hover.picker);
    assert_eq!(w.hover.knob, None);
}

#[test]
fn rows_that_are_not_drawn_do_not_answer() {
    // In a fault only the picker is left of the ways into the menu.
    assert_eq!(at(WM_LBUTTONDOWN, NOWHERE), Response::Grab);
    assert_eq!(
        at(WM_LBUTTONDOWN, Facts { on_picker: true, ..NOWHERE }),
        Response::OpenProfileMenu
    );
    assert_eq!(
        at(WM_LBUTTONDOWN, Facts { on_profile_row: true, ..NOWHERE }),
        Response::OpenProfileMenu
    );
    assert_eq!(at(WM_RBUTTONUP, NOWHERE), Response::Nothing);
}
