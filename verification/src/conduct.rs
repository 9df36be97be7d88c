//! What each operation of the window does, told by what goes in and what comes
//! out.

use crate::config::{
    ascending, found_from, lemma_found_from, lemma_named, named, profile_views, toggled, Config,
    ConfigView, CurvePoint, EcLayout, Limits, Profile, ProfileView,
};
use crate::input::{
    answered, knob_marked, marked, marked_from, point_knob_marked, Facts, Response,
};
use crate::job::{
    applying, drawing, ended, over, posting, repainting, saying, text_view, After, AfterOf, AfterView, Ask,
    AskOf, AskView, CurveSource, Job, JobView, Reply, ReplyOf, ReplyView, Then, ThenOf, ThenView,
};
use crate::knob::{
    answers_temps, clamped, preset_after, Knob, ESCAPE_PRESETS, KNOBS, POLL_PRESETS, STANDBY_POLL_PRESETS,
    WATCHDOG_PRESETS,
};
use crate::laws::law_a_click_lands_on_a_preset;
use crate::menu::{
    meaning, menu_lines, menu_views, name_views, MenuChoice, MenuItem, MenuLine, ProfileAction,
};
use crate::point::{PointKnob, POINT_KNOBS};
use crate::readout::{level_held, silent_readout, Protocol, Readout, ReadoutView};
use crate::settings::{wait_nanos, Pending, Settings, SettingsView};
use vstd::prelude::*;

verus! {

// ------------------------------------------------------------ storing curves

/// Storing a curve under a name that some profile has puts it in the place of
/// the first of that name: as many profiles as before, every other one as it
/// was and where it was, and nothing else in the settings touched.
pub proof fn law_storing_replaces_in_place(
    config: ConfigView,
    name: Seq<char>,
    points: Seq<CurvePoint>,
    at: int,
    other: int,
)
    requires
        0 <= at < config.profiles.len(),
        config.profiles[at].name == name,
        forall|j: int| 0 <= j < at ==> #[trigger] config.profiles[j].name != name,
    ensures
        ({
            let after = config.with_curve(name, points);
            &&& after.profiles.len() == config.profiles.len()
            &&& after.profiles[at].name == name
            &&& after.profiles[at].points == points
            &&& 0 <= other < config.profiles.len() && other != at ==> after.profiles[other]
                == config.profiles[other]
            &&& after == (ConfigView { profiles: after.profiles, ..config })
        }),
{
    lemma_named(config.profiles, name);
    lemma_first(config.profiles, name, at);
}

/// Storing a curve under a name that no profile has adds one profile at the end,
/// and leaves everything else as it was and where it was.
pub proof fn law_storing_adds_at_the_end(
    config: ConfigView,
    name: Seq<char>,
    points: Seq<CurvePoint>,
    other: int,
)
    requires
        forall|j: int| 0 <= j < config.profiles.len() ==> #[trigger] config.profiles[j].name
            != name,
    ensures
        ({
            let after = config.with_curve(name, points);
            &&& after.profiles.len() == config.profiles.len() + 1
            &&& after.profiles.last().name == name
            &&& after.profiles.last().points == points
            &&& 0 <= other < config.profiles.len() ==> after.profiles[other]
                == config.profiles[other]
            &&& after == (ConfigView { profiles: after.profiles, ..config })
        }),
{
    lemma_named(config.profiles, name);
}

/// Storing twice under one name is storing the second curve.
pub proof fn law_storing_again_replaces_what_was_stored(
    config: ConfigView,
    name: Seq<char>,
    first: Seq<CurvePoint>,
    second: Seq<CurvePoint>,
)
    ensures
        config.with_curve(name, first).with_curve(name, second) == config.with_curve(name, second),
{
    lemma_named(config.profiles, name);
    let once = config.with_curve(name, first);
    lemma_named(once.profiles, name);
    match named(config.profiles, name) {
        Some(i) => {
            assert(once.profiles[i].name == name);
            assert forall|j: int| 0 <= j < i implies once.profiles[j].name != name by {
                assert(once.profiles[j] == config.profiles[j]);
            }
            lemma_first(once.profiles, name, i);
        },
        None => {
            let i = config.profiles.len() as int;
            assert(once.profiles[i].name == name);
            assert forall|j: int| 0 <= j < i implies once.profiles[j].name != name by {
                assert(once.profiles[j] == config.profiles[j]);
            }
            lemma_first(once.profiles, name, i);
        },
    }
    assert(once.with_curve(name, second).profiles == config.with_curve(name, second).profiles);
}

/// The first profile of a name is what that name finds.
proof fn lemma_first(profiles: Seq<ProfileView>, name: Seq<char>, at: int)
    requires
        0 <= at < profiles.len(),
        profiles[at].name == name,
        forall|j: int| 0 <= j < at ==> #[trigger] profiles[j].name != name,
    ensures
        named(profiles, name) == Some(at),
{
    lemma_named(profiles, name);
    match named(profiles, name) {
        Some(i) => {
            if i < at {
                assert(profiles[i].name != name);
            } else if at < i {
                assert(profiles[at].name != name);
            }
        },
        None => {
            assert(profiles[at].name != name);
        },
    }
}

/// A name that no profile has finds none.
proof fn lemma_absent(profiles: Seq<ProfileView>, name: Seq<char>)
    requires
        forall|j: int| 0 <= j < profiles.len() ==> #[trigger] profiles[j].name != name,
    ensures
        named(profiles, name) is None,
{
    lemma_named(profiles, name);
}

/// Toggling a sensor that is on the list takes out its first mention and leaves
/// the others in their order; nothing else in the settings is touched.
pub proof fn law_toggling_takes_out_the_first_mention(config: ConfigView, item: usize, at: int)
    requires
        0 <= at < config.ignored_sensors.len(),
        config.ignored_sensors[at] == item,
        forall|j: int| 0 <= j < at ==> #[trigger] config.ignored_sensors[j] != item,
    ensures
        ({
            let after = config.with_sensor_toggled(item);
            let list = config.ignored_sensors;
            &&& after.ignored_sensors == list.subrange(0, at) + list.subrange(
                at + 1,
                list.len() as int,
            )
            &&& after.ignored_sensors == toggled(config.ignored_sensors, item)
            &&& after == (ConfigView { ignored_sensors: after.ignored_sensors, ..config })
        }),
{
    let list = config.ignored_sensors;
    lemma_found_from(list, item, 0);
    match found_from(list, item, 0) {
        Some(i) => {
            if i < at {
                assert(list[i] != item);
            } else if at < i {
                assert(list[at] != item);
            }
        },
        None => {
            assert(list[at] != item);
        },
    }
    assert(list.remove(at) == list.subrange(0, at) + list.subrange(at + 1, list.len() as int));
}

/// Toggling a sensor that is not on the list adds it, and puts the list in
/// ascending order; nothing else in the settings is touched.
pub proof fn law_toggling_adds_in_order(config: ConfigView, item: usize)
    requires
        !config.ignored_sensors.contains(item),
    ensures
        ({
            let after = config.with_sensor_toggled(item);
            let list = after.ignored_sensors;
            &&& list.to_multiset() == config.ignored_sensors.to_multiset().insert(item)
            &&& forall|i: int, j: int| 0 <= i <= j < list.len() ==> list[i] <= list[j]
            &&& after.ignored_sensors == toggled(config.ignored_sensors, item)
            &&& after == (ConfigView { ignored_sensors: after.ignored_sensors, ..config })
        }),
{
    broadcast use vstd::seq_lib::group_to_multiset_ensures;

    let before = config.ignored_sensors;
    lemma_found_from(before, item, 0);
    match found_from(before, item, 0) {
        Some(i) => {
            assert(before[i] == item);
        },
        None => {},
    }
    let leq = |a: usize, b: usize| a <= b;
    before.push(item).lemma_sort_by_ensures(leq);
    let list = toggled(before, item);
    assert(list == ascending(before.push(item)));
    assert forall|i: int, j: int| 0 <= i <= j < list.len() implies list[i] <= list[j] by {
        assert(leq(list[i], list[j]));
    }
}

// ------------------------------------------------------------- the settings rows

/// A click on a row changes that row's own setting and, where it is below its
/// floor, the watchdog: every other setting is exactly what it was.
pub proof fn law_a_click_touches_its_own_setting(
    knob: Knob,
    config: ConfigView,
    limits: Limits,
    floor: u32,
)
    ensures
        ({
            let after = knob.cycled(config, limits, floor);
            &&& knob != Knob::Poll ==> after.poll_secs == config.poll_secs
            &&& knob != Knob::StandbyPoll ==> after.standby_poll_secs == config.standby_poll_secs
            &&& knob != Knob::Escape ==> after.manual_escape_c == config.manual_escape_c
            &&& knob != Knob::StartIn ==> after.startup_mode == config.startup_mode
            &&& knob != Knob::Logging ==> after.log_enabled == config.log_enabled
            &&& knob != Knob::ShowWindow ==> after.show_window_on_start
                == config.show_window_on_start
            &&& knob != Knob::SingleFan ==> after.single_fan == config.single_fan
            &&& knob != Knob::EcLayout ==> after.ec_layout == config.ec_layout
            &&& knob != Knob::Watchdog && config.watchdog_secs >= floor ==> after.watchdog_secs
                == config.watchdog_secs
            &&& knob != Knob::Watchdog && config.watchdog_secs < floor ==> after.watchdog_secs
                == floor
            &&& after.fahrenheit == config.fahrenheit
            &&& after.log_max_mb == config.log_max_mb
            &&& after.ignored_sensors == config.ignored_sensors
            &&& after.profiles == config.profiles
            &&& after.active_profile == config.active_profile
        }),
{
}

/// The watchdog's floor is that of the poll intervals as they are after the
/// click: a click before the watchdog is held to its floor has changed exactly
/// what it changes, but for that.
pub proof fn law_the_floor_is_that_of_the_new_intervals(
    knob: Knob,
    config: ConfigView,
    limits: Limits,
    floor: u32,
)
    ensures
        ({
            let stepped = knob.stepped(config, limits);
            let after = knob.cycled(config, limits, floor);
            &&& after == (ConfigView { watchdog_secs: after.watchdog_secs, ..stepped })
            &&& knob != Knob::Watchdog ==> stepped.watchdog_secs == config.watchdog_secs
            &&& stepped.watchdog_secs >= floor ==> after.watchdog_secs == stepped.watchdog_secs
            &&& stepped.watchdog_secs < floor ==> after.watchdog_secs == floor
        }),
        ({
            let raised = config.with_watchdog_floor(floor);
            &&& raised == (ConfigView { watchdog_secs: raised.watchdog_secs, ..config })
            &&& config.watchdog_secs >= floor ==> raised.watchdog_secs == config.watchdog_secs
            &&& config.watchdog_secs < floor ==> raised.watchdog_secs == floor
        }),
{
}

/// A click on a row with two states moves it to the other one.
pub proof fn law_a_click_flips_a_switch(config: ConfigView, limits: Limits, floor: u32)
    ensures
        Knob::StartIn.cycled(config, limits, floor).startup_mode != config.startup_mode,
        Knob::Logging.cycled(config, limits, floor).log_enabled != config.log_enabled,
        Knob::ShowWindow.cycled(config, limits, floor).show_window_on_start
            != config.show_window_on_start,
        Knob::SingleFan.cycled(config, limits, floor).single_fan != config.single_fan,
        Knob::EcLayout.cycled(config, limits, floor).ec_layout is Some,
        Knob::EcLayout.cycled(config, limits, floor).ec_layout == Some(EcLayout::Compat) <==> !(
        config.ec_layout == Some(EcLayout::Compat)),
{
}

/// A value brought into a range is the nearest value in it.
pub proof fn law_clamping_is_the_nearest_value(value: int, low: int, high: int)
    requires
        low <= high,
    ensures
        low <= clamped(value, low, high) <= high,
        low <= value <= high ==> clamped(value, low, high) == value,
        value < low ==> clamped(value, low, high) == low,
        value > high ==> clamped(value, low, high) == high,
{
}

/// A click on a row of presets moves to the first preset above what it shows, or
/// to the first of all when none is above; and then to the nearest value that
/// the limits allow. The watchdog goes to the preset, or to its floor where that
/// is longer.
pub proof fn law_a_click_moves_to_the_next_preset(
    config: ConfigView,
    limits: Limits,
    floor: u32,
    poll: u32,
    standby: u32,
    escape: u32,
    watchdog: u32,
)
    requires
        limits.well_formed(),
        is_next(POLL_PRESETS@, config.poll_secs as int, poll),
        is_next(STANDBY_POLL_PRESETS@, config.standby_poll_secs as int, standby),
        is_next(ESCAPE_PRESETS@, config.manual_escape_c as int, escape),
        is_next(WATCHDOG_PRESETS@, config.watchdog_secs as int, watchdog),
    ensures
        ({
            let p = Knob::Poll.cycled(config, limits, floor).poll_secs;
            &&& limits.poll_secs_min <= poll <= limits.poll_secs_max ==> p == poll
            &&& poll < limits.poll_secs_min ==> p == limits.poll_secs_min
            &&& poll > limits.poll_secs_max ==> p == limits.poll_secs_max
            &&& p == poll
        }),
        ({
            let p = Knob::StandbyPoll.cycled(config, limits, floor).standby_poll_secs;
            &&& limits.standby_poll_secs_min <= standby <= limits.standby_poll_secs_max ==> p
                == standby
            &&& standby < limits.standby_poll_secs_min ==> p == limits.standby_poll_secs_min
            &&& standby > limits.standby_poll_secs_max ==> p == limits.standby_poll_secs_max
        }),
        ({
            let p = Knob::Escape.cycled(config, limits, floor).manual_escape_c;
            &&& limits.manual_escape_min <= escape <= limits.manual_escape_max ==> p == escape
            &&& escape < limits.manual_escape_min ==> p == limits.manual_escape_min
            &&& escape > limits.manual_escape_max ==> p == limits.manual_escape_max
        }),
        ({
            let p = Knob::Watchdog.cycled(config, limits, floor).watchdog_secs;
            &&& watchdog >= floor ==> p == watchdog
            &&& watchdog < floor ==> p == floor
        }),
{
    lemma_next(POLL_PRESETS@, config.poll_secs as int, poll);
    lemma_next(STANDBY_POLL_PRESETS@, config.standby_poll_secs as int, standby);
    let from: int = if config.manual_escape_c < 0 {
        0
    } else {
        config.manual_escape_c as int
    };
    assert(is_next(ESCAPE_PRESETS@, from, escape));
    lemma_next(ESCAPE_PRESETS@, from, escape);
    lemma_next(WATCHDOG_PRESETS@, config.watchdog_secs as int, watchdog);
}

/// `preset` is the smallest of the presets above `current`, or the smallest of
/// all when none is above.
pub open spec fn is_next(presets: Seq<u32>, current: int, preset: u32) -> bool {
    &&& presets.contains(preset)
    &&& if exists|i: int| 0 <= i < presets.len() && #[trigger] presets[i] > current {
        &&& preset > current
        &&& forall|i: int|
            0 <= i < presets.len() && #[trigger] presets[i] > current ==> preset <= presets[i]
    } else {
        forall|i: int| 0 <= i < presets.len() ==> preset <= #[trigger] presets[i]
    }
}

proof fn lemma_next(presets: Seq<u32>, current: int, preset: u32)
    requires
        forall|i: int, j: int| 0 <= i < j < presets.len() ==> presets[i] < presets[j],
        is_next(presets, current, preset),
    ensures
        preset_after(presets, current) == preset,
{
    law_a_click_lands_on_a_preset(presets, current);
    let at = choose|k: int| 0 <= k < presets.len() && presets[k] == preset;
    if exists|i: int| 0 <= i < presets.len() && #[trigger] presets[i] > current {
        assert forall|j: int| 0 <= j < at implies #[trigger] presets[j] <= current by {
            if presets[j] > current {
                assert(preset <= presets[j]);
                assert(presets[j] < presets[at]);
            }
        }
        assert(presets[at] > current);
    } else {
        assert forall|i: int| 0 <= i < presets.len() implies #[trigger] presets[i] <= current by {}
        assert(preset <= presets[0]);
        if at > 0 {
            assert(presets[0] < presets[at]);
        }
    }
}

/// What a click can lead to: these intervals and this temperature, and no
/// others.
pub proof fn law_the_presets_on_offer()
    ensures
        POLL_PRESETS@ == seq![1u32, 2, 3, 5, 10, 15, 30, 60],
        STANDBY_POLL_PRESETS@ == seq![5u32, 10, 15, 30, 60, 120],
        WATCHDOG_PRESETS@ == seq![30u32, 60, 90, 120, 180],
        ESCAPE_PRESETS@ == seq![60u32, 65, 70, 75, 78, 80, 85, 90],
{
}

/// The settings that a file keeps are the ones inside every range with a
/// watchdog at its floor or above.
pub proof fn law_kept_settings_are_inside_every_range(
    limits: Limits,
    config: ConfigView,
    floor: u32,
)
    ensures
        limits.keeps(config, floor) <==> {
            &&& limits.poll_secs_min <= config.poll_secs
            &&& config.poll_secs <= limits.poll_secs_max
            &&& limits.standby_poll_secs_min <= config.standby_poll_secs
            &&& config.standby_poll_secs <= limits.standby_poll_secs_max
            &&& limits.manual_escape_min <= config.manual_escape_c
            &&& config.manual_escape_c <= limits.manual_escape_max
            &&& floor <= config.watchdog_secs
        },
{
}

// ---------------------------------------------------------- modes and commands

/// A click on the Mode row asks for the curve while the firmware drives the fan
/// or a level is held, and for the firmware in every other mode there may be.
pub proof fn law_a_mode_click_asks_for(s: SettingsView)
    ensures
        s.readout.mode_raw == s.protocol.mode_bios ==> s.mode_click() == (
            s.protocol.mode_smart,
            0u8,
        ),
        s.readout.mode_raw == s.protocol.mode_manual ==> s.mode_click() == (
            s.protocol.mode_smart,
            0u8,
        ),
        s.readout.mode_raw != s.protocol.mode_bios && s.readout.mode_raw
            != s.protocol.mode_manual ==> s.mode_click() == (s.protocol.mode_bios, 0u8),
        s.mode_click().0 == s.protocol.mode_after(s.readout.mode_raw),
{
}

/// A click on the Level row asks to hold one level more than the register holds,
/// one after seven, and one more than the middle where the register holds none.
pub proof fn law_a_level_click_asks_for(s: SettingsView)
    ensures
        s.level_click().0 == s.protocol.mode_manual,
        1 <= s.readout.fan_ctrl < 7 ==> s.level_click().1 == s.readout.fan_ctrl + 1,
        s.readout.fan_ctrl == 7 ==> s.level_click().1 == 1,
        s.readout.fan_ctrl == 0 || s.readout.fan_ctrl > 7 ==> s.level_click().1 == 5,
{
}

/// The level shown is the register's where that is one from 1 to 7, and the
/// middle one otherwise.
pub proof fn law_the_level_shown(fan_ctrl: u8)
    ensures
        1 <= fan_ctrl <= 7 ==> level_held(fan_ctrl) == fan_ctrl,
        fan_ctrl == 0 || fan_ctrl > 7 ==> level_held(fan_ctrl) == 4,
{
}

/// A command is waited for two polls and two seconds.
pub proof fn law_how_long_a_command_is_waited_for(poll_secs: u32)
    ensures
        wait_nanos(poll_secs) == 2_000_000_000 * poll_secs + 2_000_000_000,
{
}

/// Sending a command notes what was asked and until when, and shows it: the mode
/// and its name, and the level where one is to be held. Nothing else changes.
pub proof fn law_sending_a_command(s: SettingsView, mode: u8, level: u8, now: u128)
    requires
        now + 2_000_000_000 * s.config.poll_secs + 2_000_000_000 <= u128::MAX,
    ensures
        ({
            let t = s.awaiting(mode, level, now);
            &&& t.pending == Some(
                Pending {
                    mode,
                    level,
                    deadline: (now + 2_000_000_000 * s.config.poll_secs + 2_000_000_000) as u128,
                },
            )
            &&& shows_command(t.readout, s.readout, s.protocol, mode, level)
            &&& t == (SettingsView { pending: t.pending, readout: t.readout, ..s })
        }),
{
}

/// `shown` is the report `came`, with a command written over it.
pub open spec fn shows_command(
    shown: ReadoutView,
    came: ReadoutView,
    protocol: Protocol,
    mode: u8,
    level: u8,
) -> bool {
    &&& shown.mode_raw == mode
    &&& mode == protocol.mode_manual ==> shown.fan_ctrl == level
    &&& mode != protocol.mode_manual ==> shown.fan_ctrl == came.fan_ctrl
    &&& mode == protocol.mode_smart ==> shown.mode == "Smart"@
    &&& mode == protocol.mode_manual && mode != protocol.mode_smart ==> shown.mode == "Manual"@
    &&& mode != protocol.mode_smart && mode != protocol.mode_manual ==> shown.mode == "BIOS"@
    &&& shown == (ReadoutView {
        mode: shown.mode,
        mode_raw: shown.mode_raw,
        fan_ctrl: shown.fan_ctrl,
        ..came
    })
}

/// What a report does to the window. With no command under way it is shown as it
/// came. A command is under way until the report has its mode, and its level
/// where it is one to hold, or until its deadline; as long as it is, it is
/// written over the report. The settings become the file's, the picker is lit
/// exactly when the pointer is on it, and nothing else changes.
pub proof fn law_what_a_report_does(
    s: SettingsView,
    report: ReadoutView,
    now: u128,
    on_disk: ConfigView,
    over_picker: bool,
)
    ensures
        ({
            let t = s.sampled(report, now, on_disk, over_picker);
            &&& t.config == on_disk
            &&& t.editing == s.editing
            &&& t.protocol == s.protocol
            &&& t.hover.picker == over_picker
            &&& t.hover.mode == s.hover.mode
            &&& t.hover.level == s.hover.level
            &&& t.hover.profile == s.hover.profile
            &&& t.hover.knob == s.hover.knob
            &&& s.pending is None ==> t.pending is None && t.readout == report
            &&& s.pending matches Some(p) ==> {
                let landed = report.mode_raw == p.mode && (p.mode == s.protocol.mode_manual
                    ==> report.fan_ctrl == p.level);
                &&& landed || now >= p.deadline ==> t.pending is None && t.readout == report
                &&& !landed && now < p.deadline ==> t.pending == s.pending && shows_command(
                    t.readout,
                    report,
                    s.protocol,
                    p.mode,
                    p.level,
                )
            }
        }),
{
}

/// The same of settling a command against the report in hand.
pub proof fn law_settling_a_command(s: SettingsView, now: u128)
    ensures
        ({
            let t = s.settled(now);
            &&& t == (SettingsView { pending: t.pending, readout: t.readout, ..s })
            &&& s.pending is None ==> t == s
            &&& s.pending matches Some(p) ==> {
                let landed = s.readout.mode_raw == p.mode && (p.mode == s.protocol.mode_manual
                    ==> s.readout.fan_ctrl == p.level);
                &&& landed || now >= p.deadline ==> t.pending is None && t.readout == s.readout
                &&& !landed && now < p.deadline ==> t.pending == s.pending && shows_command(
                    t.readout,
                    s.readout,
                    s.protocol,
                    p.mode,
                    p.level,
                )
            }
        }),
{
}

/// Writing a command over a report, and nothing else of it.
pub proof fn law_showing_a_command(readout: ReadoutView, protocol: Protocol, pending: Pending)
    ensures
        shows_command(
            readout.showing(protocol, pending),
            readout,
            protocol,
            pending.mode,
            pending.level,
        ),
{
}

/// A window that has just opened edits what it was opened on, with the settings
/// it was given, and has heard nothing, asked nothing and lit nothing.
pub proof fn law_a_window_opens_silent(
    editing: Seq<char>,
    config: ConfigView,
    protocol: Protocol,
    sensor: int,
)
    ensures
        ({
            let s = SettingsView::opened(editing, config, protocol);
            &&& s.editing == editing
            &&& s.config == config
            &&& s.protocol == protocol
            &&& s.pending is None
            &&& !s.hover.picker && !s.hover.mode && !s.hover.level && !s.hover.profile
            &&& s.hover.knob is None
            &&& s.readout == silent_readout()
        }),
        silent_readout().sensors.len() == 12,
        0 <= sensor < 12 ==> silent_readout().sensors[sensor] is None,
        silent_readout().hottest is None,
        silent_readout().fan_rpm == seq![0u16, 0u16],
        silent_readout().mode.len() == 0,
        silent_readout().profile.len() == 0,
        silent_readout().mode_raw == 0,
        silent_readout().fan_ctrl == 0,
        !silent_readout().fault,
        silent_readout().status == 0,
        !silent_readout().single_fan_hint,
        silent_readout().layout_hint == 0,
{
}

// ------------------------------------------------- catching up with the tray

/// A profile that was selected elsewhere comes on screen. With nothing to save,
/// because nothing is changed or the edited profile is gone, the file is read
/// and exactly the first profile of the selected name is shown; once shown, it
/// is the one being edited. If it cannot be shown the window stays where it was.
/// Either way the window is drawn again and that is all.
pub proof fn law_the_selected_profile_comes_on_screen(
    s: SettingsView,
    dirty: bool,
    file: ConfigView,
    at: usize,
)
    requires
        s.config.active_profile.len() > 0,
        s.config.active_profile != s.editing,
        at < file.profiles.len(),
        file.profiles[at as int].name == s.config.active_profile,
        forall|j: int|
            0 <= j < at ==> #[trigger] file.profiles[j].name != s.config.active_profile,
        !dirty || forall|j: int|
            0 <= j < file.profiles.len() ==> #[trigger] file.profiles[j].name != s.editing,
    ensures
        ({
            let job = s.catching_up(dirty);
            let (t, shown) = s.next(job, ReplyOf::Loaded(Ok(file)));
            let (u, drawn) = t.next(shown, ReplyOf::Shown(true));
            let (v, kept) = t.next(shown, ReplyOf::Shown(false));
            &&& job.ask is Load
            &&& t == s
            &&& shown.ask == (AskView::ShowCurve { config: file, source: CurveSource::Profile(at) })
            &&& u == (SettingsView { editing: s.config.active_profile, ..s })
            &&& drawn.ask is Repaint
            &&& u.next(drawn, ReplyOf::Acknowledged).1.ask is Done
            &&& v == s
            &&& kept.ask is Repaint
            &&& v.next(kept, ReplyOf::Acknowledged).1.ask is Done
        }),
{
    lemma_first(file.profiles, s.config.active_profile, at as int);
    if dirty {
        lemma_absent(file.profiles, s.editing);
    }
}

/// With changes to a profile that is still there, they are saved first, to that
/// profile; and however the save goes, the selected profile is shown next, as
/// the file had it.
pub proof fn law_unsaved_changes_do_not_keep_the_selected_profile_away(
    s: SettingsView,
    file: ConfigView,
    at: usize,
    edited: int,
    points: Seq<CurvePoint>,
    fresh: ConfigView,
    why: Seq<char>,
)
    requires
        s.config.active_profile.len() > 0,
        s.config.active_profile != s.editing,
        at < file.profiles.len(),
        file.profiles[at as int].name == s.config.active_profile,
        forall|j: int|
            0 <= j < at ==> #[trigger] file.profiles[j].name != s.config.active_profile,
        0 <= edited < file.profiles.len(),
        file.profiles[edited].name == s.editing,
    ensures
        ({
            let show = AskView::ShowCurve { config: file, source: CurveSource::Profile(at) };
            let (a, valid) = s.next(s.catching_up(true), ReplyOf::Loaded(Ok(file)));
            let (b, load) = a.next(valid, ReplyOf::Validated(Ok(points)));
            let (c, save) = b.next(load, ReplyOf::Loaded(Ok(fresh)));
            let (d, mark) = c.next(save, ReplyOf::Saved(Ok(())));
            let (e, shown) = d.next(mark, ReplyOf::Acknowledged);
            &&& a == s && b == s && c == s && d == s && e == s
            &&& valid.ask is Validate
            &&& load.ask is Load
            &&& save.ask == AskView::Save(fresh.with_curve(s.editing, points))
            &&& mark.ask is MarkSaved
            &&& shown.ask == show
            &&& a.next(valid, ReplyOf::Validated(Err(why))).1.ask == show
            &&& b.next(load, ReplyOf::Loaded(Err(why))).1.ask == show
            &&& c.next(save, ReplyOf::Saved(Err(why))).1.ask == show
            &&& e.next(shown, ReplyOf::Shown(true)).0 == (SettingsView {
                editing: s.config.active_profile,
                ..s
            })
            &&& a.next(valid, ReplyOf::Validated(Err(why))).1 == shown
            &&& b.next(load, ReplyOf::Loaded(Err(why))).1 == shown
            &&& c.next(save, ReplyOf::Saved(Err(why))).1 == shown
        }),
{
    lemma_first(file.profiles, s.config.active_profile, at as int);
    lemma_named(file.profiles, s.editing);
}

/// There is nothing to catch up with while no profile is selected, or the one on
/// screen is, or the file cannot be read, or it has no profile of that name: the
/// window is drawn again and stays as it is. In the last case changes to a
/// profile that is still there are saved all the same.
pub proof fn law_nothing_to_catch_up_with(
    s: SettingsView,
    dirty: bool,
    file: ConfigView,
    why: Seq<char>,
)
    ensures
        s.config.active_profile.len() == 0 || s.config.active_profile == s.editing
            ==> s.catching_up(dirty).ask is Repaint,
        s.config.active_profile.len() > 0 && s.config.active_profile != s.editing ==> {
            let (t, drawn) = s.next(s.catching_up(dirty), ReplyOf::Loaded(Err(why)));
            t == s && drawn.ask is Repaint
        },
        s.config.active_profile.len() > 0 && s.config.active_profile != s.editing && (!dirty
            || forall|j: int|
            0 <= j < file.profiles.len() ==> #[trigger] file.profiles[j].name != s.editing) && (
        forall|j: int|
            0 <= j < file.profiles.len() ==> #[trigger] file.profiles[j].name
                != s.config.active_profile) ==> {
            let (t, drawn) = s.next(s.catching_up(dirty), ReplyOf::Loaded(Ok(file)));
            t == s && drawn.ask is Repaint
        },
        s.config.active_profile.len() > 0 && s.config.active_profile != s.editing && dirty && (
        exists|j: int|
            0 <= j < file.profiles.len() && #[trigger] file.profiles[j].name == s.editing) ==> {
            let (t, valid) = s.next(s.catching_up(dirty), ReplyOf::Loaded(Ok(file)));
            t == s && valid.ask is Validate
        },
{
    lemma_named(file.profiles, s.config.active_profile);
    lemma_named(file.profiles, s.editing);
}

/// The selected profile being gone from the file, what follows a save on its
/// behalf is only drawing.
pub proof fn law_following_a_profile_that_is_gone(
    s: SettingsView,
    job: JobView,
    file: ConfigView,
)
    requires
        job.purpose == (ThenView::ApplyMarked(
            AfterOf::Follow(file),
        )),
        forall|j: int|
            0 <= j < file.profiles.len() ==> #[trigger] file.profiles[j].name
                != s.config.active_profile,
    ensures
        s.next(job, ReplyOf::Acknowledged).0 == s,
        s.next(job, ReplyOf::Acknowledged).1.ask is Repaint,
{
    lemma_absent(file.profiles, s.config.active_profile);
}

// ----------------------------------------------------------------- the menu

/// The profile menu: a line for every profile in order, numbered from 2000, with
/// the selected one checked; then a separator, New, Duplicate, Rename, Import
/// and Delete, the last only while another profile is left.
pub proof fn law_what_the_menu_offers(names: Seq<Seq<char>>, selected: Seq<char>, i: int)
    ensures
        ({
            let lines = menu_lines(names, selected);
            let n = names.len() as int;
            &&& lines.len() == n + 6
            &&& 0 <= i < n && n + 2000 <= usize::MAX ==> (lines[i] matches MenuLine::Item {
                id,
                text,
                checked,
                enabled,
            } && id == 2000 + i && text == names[i] && checked == (names[i] == selected)
                && enabled)
            &&& lines[n] is Separator
            &&& lines[n + 1] == (MenuLine::Item {
                id: 1900,
                text: "New..."@,
                checked: false,
                enabled: true,
            })
            &&& lines[n + 2] == (MenuLine::Item {
                id: 1901,
                text: "Duplicate..."@,
                checked: false,
                enabled: true,
            })
            &&& lines[n + 3] == (MenuLine::Item {
                id: 1902,
                text: "Rename..."@,
                checked: false,
                enabled: true,
            })
            &&& lines[n + 4] == (MenuLine::Item {
                id: 1904,
                text: "Import from TPFanControl..."@,
                checked: false,
                enabled: true,
            })
            &&& lines[n + 5] == (MenuLine::Item {
                id: 1903,
                text: "Delete"@,
                checked: false,
                enabled: n > 1,
            })
        }),
{
}

/// What every answer from the menu means: the management lines themselves, a
/// profile's line a switch to it unless it is the selected one, and anything
/// that is no line nothing.
pub proof fn law_what_an_answer_means(id: i32, names: Seq<Seq<char>>, selected: Seq<char>)
    ensures
        ({
            let choice = meaning(id, names, selected);
            let n = names.len() as int;
            &&& choice == MenuChoice::Manage(ProfileAction::New) <==> id == 1900
            &&& choice == MenuChoice::Manage(ProfileAction::Duplicate) <==> id == 1901
            &&& choice == MenuChoice::Manage(ProfileAction::Rename) <==> id == 1902
            &&& choice == MenuChoice::Manage(ProfileAction::Delete) <==> id == 1903
            &&& choice == MenuChoice::Import <==> id == 1904
            &&& choice is Switch <==> 2000 <= id < 2000 + n && names[id - 2000] != selected
            &&& choice matches MenuChoice::Switch(i) ==> i == id - 2000
        }),
{
}

/// Opening the menu reads the file and offers what it holds; with no profile in
/// it, or no file, nothing happens.
pub proof fn law_opening_the_menu(
    s: SettingsView,
    job: JobView,
    file: ConfigView,
    why: Seq<char>,
    i: int,
)
    requires
        job.purpose is MenuShow,
    ensures
        ({
            let (t, open) = s.next(job, ReplyOf::Loaded(Ok(file)));
            &&& t == s
            &&& file.profiles.len() == 0 ==> open.ask is Done
            &&& file.profiles.len() > 0 ==> {
                &&& open.purpose matches ThenOf::MenuPick { names } && {
                    &&& names.len() == file.profiles.len()
                    &&& 0 <= i < names.len() ==> names[i] == file.profiles[i].name
                    &&& open.ask == AskView::Menu(
                        menu_lines(names, s.config.active_profile),
                    )
                }
            }
        }),
        s.next(job, ReplyOf::Loaded(Err(why))).0 == s,
        s.next(job, ReplyOf::Loaded(Err(why))).1.ask is Done,
{
}

/// Choosing another profile's line, with unsaved changes or without: the curve
/// on screen is saved to the profile it came from; then the file is read again
/// and written with the profile on that line selected and nothing else changed;
/// then the engine is told its name and no mode; and then that profile is the
/// one selected and the one being edited, shown and drawn.
pub proof fn law_choosing_a_profile_switches_to_it(
    s: SettingsView,
    job: JobView,
    names: Seq<Seq<char>>,
    id: i32,
    dirty: bool,
    points: Seq<CurvePoint>,
    before: ConfigView,
    file: ConfigView,
    sent: Option<u128>,
)
    requires
        job.purpose matches ThenOf::MenuPick { names: offered } && offered == names,
        2000 <= id < 2000 + names.len(),
        names[id - 2000] != s.config.active_profile,
    ensures
        ({
            let name = names[id - 2000];
            let (a, valid) = s.next(job, ReplyOf::Chosen { id, dirty });
            let (b, load) = a.next(valid, ReplyOf::Validated(Ok(points)));
            let (c, save) = b.next(load, ReplyOf::Loaded(Ok(before)));
            let (d, mark) = c.next(save, ReplyOf::Saved(Ok(())));
            let (e, again) = d.next(mark, ReplyOf::Acknowledged);
            let (f, select) = e.next(again, ReplyOf::Loaded(Ok(file)));
            let (g, tell) = f.next(select, ReplyOf::Saved(Ok(())));
            let (h, show) = g.next(tell, ReplyOf::Posted(sent));
            let (i, draw) = h.next(show, ReplyOf::Acknowledged);
            let (j, end) = i.next(draw, ReplyOf::Acknowledged);
            &&& a == s && b == s && c == s && d == s && e == s && f == s && g == s
            &&& valid.ask is Validate
            &&& load.ask is Load
            &&& save.ask == AskView::Save(before.with_curve(s.editing, points))
            &&& mark.ask is MarkSaved
            &&& again.ask is Load
            &&& select.ask == AskView::Save(ConfigView { active_profile: name, ..file })
            &&& tell.ask == (AskView::Post { mode: s.protocol.mode_keep, level: 0, profile: name })
            &&& h == (SettingsView {
                editing: name,
                config: ConfigView { active_profile: name, ..file },
                ..s
            })
            &&& show.ask is ShowActive
            &&& i == h && j == h
            &&& draw.ask is Repaint
            &&& end.ask == AskView::Done(None)
        }),
{
}

/// A switch that fails anywhere on the way changes nothing and tells the engine
/// nothing.
pub proof fn law_a_switch_that_fails_changes_nothing(
    s: SettingsView,
    job: JobView,
    name: Seq<char>,
    points: Seq<CurvePoint>,
    file: ConfigView,
    why: Seq<char>,
)
    ensures
        ({
            let valid = JobView {
                ask: AskOf::Validate,
                purpose: ThenOf::ApplyLoad(AfterOf::Switch(name)),
            };
            let (b, load) = s.next(valid, ReplyOf::Validated(Ok(points)));
            let (c, save) = s.next(load, ReplyOf::Loaded(Ok(file)));
            let (d, mark) = s.next(save, ReplyOf::Saved(Ok(())));
            let (e, again) = s.next(mark, ReplyOf::Acknowledged);
            let (f, select) = s.next(again, ReplyOf::Loaded(Ok(file)));
            let stopped = AskView::Done(Some(why));
            &&& s.next(valid, ReplyOf::Validated(Err(why))).0 == s
            &&& s.next(valid, ReplyOf::Validated(Err(why))).1.ask == stopped
            &&& s.next(load, ReplyOf::Loaded(Err(why))).0 == s
            &&& s.next(load, ReplyOf::Loaded(Err(why))).1.ask == stopped
            &&& s.next(save, ReplyOf::Saved(Err(why))).0 == s
            &&& s.next(save, ReplyOf::Saved(Err(why))).1.ask == stopped
            &&& s.next(again, ReplyOf::Loaded(Err(why))).0 == s
            &&& s.next(again, ReplyOf::Loaded(Err(why))).1.ask is Done
            &&& s.next(select, ReplyOf::Saved(Err(why))).0 == s
            &&& s.next(select, ReplyOf::Saved(Err(why))).1.ask is Done
        }),
{
}

/// Every other answer from the menu: nothing for no line and for the profile
/// already selected, and for the management lines what they ask.
pub proof fn law_choosing_anything_else(
    s: SettingsView,
    job: JobView,
    names: Seq<Seq<char>>,
    id: i32,
    dirty: bool,
)
    requires
        job.purpose matches ThenOf::MenuPick { names: offered } && offered == names,
    ensures
        ({
            let (t, next) = s.next(job, ReplyOf::Chosen { id, dirty });
            &&& t == s
            &&& id == 1900 ==> next == s.managing(ProfileAction::New, dirty)
            &&& id == 1901 ==> next == s.managing(ProfileAction::Duplicate, dirty)
            &&& id == 1902 ==> next == s.managing(ProfileAction::Rename, dirty)
            &&& id == 1903 ==> next == s.managing(ProfileAction::Delete, dirty)
            &&& id == 1904 ==> next == s.importing(dirty)
            &&& !(1900 <= id <= 1904) && !(2000 <= id < 2000 + names.len()) ==> next.ask
                == AskView::Done(None)
            &&& 2000 <= id < 2000 + names.len() && names[id - 2000] == s.config.active_profile
                ==> next.ask == AskView::Done(None)
        }),
{
}

// ------------------------------------------------------- managing the profiles

/// Managing the selected profile with nothing to save asks at once: under which
/// name to create, with nothing filled in; to copy, with the name and "copy"
/// filled in; to rename, with the name filled in; and before deleting, for a
/// yes. With changes everything but deleting saves them first and then asks the
/// same; when they cannot be saved it stops there.
pub proof fn law_managing_asks(
    s: SettingsView,
    action: ProfileAction,
    points: Seq<CurvePoint>,
    file: ConfigView,
    why: Seq<char>,
)
    ensures
        ({
            let active = s.config.active_profile;
            let asked = s.managing(action, false);
            &&& action == ProfileAction::New ==> asked.ask == (AskView::Name {
                title: "New profile"@,
                initial: Seq::<char>::empty(),
            })
            &&& action == ProfileAction::Duplicate ==> asked.ask == (AskView::Name {
                title: "Duplicate profile"@,
                initial: active + " copy"@,
            })
            &&& action == ProfileAction::Rename ==> asked.ask == (AskView::Name {
                title: "Rename profile"@,
                initial: active,
            })
            &&& action == ProfileAction::Delete ==> asked.ask == AskView::Confirm(
                "Delete the profile \""@ + active
                    + "\"?\n\nIts curve goes with it, and there is no undo."@,
            )
            &&& action == ProfileAction::Delete ==> s.managing(action, true) == asked
            &&& action != ProfileAction::Delete ==> {
                let valid = s.managing(action, true);
                let (b, load) = s.next(valid, ReplyOf::Validated(Ok(points)));
                let (c, save) = b.next(load, ReplyOf::Loaded(Ok(file)));
                let (d, mark) = c.next(save, ReplyOf::Saved(Ok(())));
                let (e, then_asked) = d.next(mark, ReplyOf::Acknowledged);
                &&& valid.ask is Validate
                &&& load.ask is Load
                &&& save.ask == AskView::Save(file.with_curve(s.editing, points))
                &&& mark.ask is MarkSaved
                &&& then_asked == asked
                &&& b == s && c == s && d == s && e == s
                &&& s.next(valid, ReplyOf::Validated(Err(why))).0 == s
                &&& s.next(valid, ReplyOf::Validated(Err(why))).1.ask == AskView::Done(Some(why))
                &&& s.next(load, ReplyOf::Loaded(Err(why))).0 == s
                &&& s.next(load, ReplyOf::Loaded(Err(why))).1.ask == AskView::Done(Some(why))
                &&& s.next(save, ReplyOf::Saved(Err(why))).0 == s
                &&& s.next(save, ReplyOf::Saved(Err(why))).1.ask == AskView::Done(Some(why))
            }
        }),
{
}

/// A name typed for creating, copying or renaming leads to that same action on
/// the selected profile under that name; a yes leads to deleting it. No name and
/// no yes lead to nothing.
pub proof fn law_managing_does_what_was_asked_for(
    s: SettingsView,
    action: ProfileAction,
    name: Seq<char>,
)
    ensures
        ({
            let asked = s.managing(action, false);
            let active = s.config.active_profile;
            &&& action != ProfileAction::Delete ==> {
                let (t, edit) = s.next(asked, ReplyOf::Named(Some(name)));
                let (u, stopped) = s.next(asked, ReplyOf::Named(None));
                &&& t == s && u == s
                &&& edit.ask == (AskView::EditProfiles { action, active, name })
                &&& stopped.ask is Done
            }
            &&& action == ProfileAction::Delete ==> {
                let (t, edit) = s.next(asked, ReplyOf::Answered(true));
                let (u, stopped) = s.next(asked, ReplyOf::Answered(false));
                &&& t == s && u == s
                &&& edit.ask == (AskView::EditProfiles { action, active, name: active })
                &&& stopped.ask is Done
            }
        }),
{
}

/// An edit of the profiles that worked is announced to the engine by name alone
/// and then taken over: its selected profile is the one being edited, shown and
/// drawn. One that was refused is said so, and nothing changes.
pub proof fn law_after_an_edit_of_the_profiles(
    s: SettingsView,
    job: JobView,
    file: ConfigView,
    why: Seq<char>,
    sent: Option<u128>,
)
    requires
        job.purpose is ManageEdited,
    ensures
        ({
            let (a, tell) = s.next(job, ReplyOf::ProfilesEdited(Ok(file)));
            let (b, show) = a.next(tell, ReplyOf::Posted(sent));
            let (c, draw) = b.next(show, ReplyOf::Acknowledged);
            let (d, end) = c.next(draw, ReplyOf::Acknowledged);
            &&& a == s
            &&& tell.ask == (AskView::Post {
                mode: s.protocol.mode_keep,
                level: 0,
                profile: file.active_profile,
            })
            &&& b == (SettingsView { editing: file.active_profile, config: file, ..s })
            &&& show.ask is ShowActive
            &&& c == b && d == b
            &&& draw.ask is Repaint
            &&& end.ask == AskView::Done(None)
        }),
        ({
            let (a, told) = s.next(job, ReplyOf::ProfilesEdited(Err(why)));
            let (b, end) = a.next(told, ReplyOf::Acknowledged);
            &&& a == s && b == s
            &&& told.ask == AskView::Say(why)
            &&& end.ask == AskView::Done(None)
        }),
{
}

/// Importing saves what is changed, brings the curve over, announces and takes
/// over the settings as an edit of the profiles does, and says what came over
/// last of all. Called off it does nothing, and refused it says why.
pub proof fn law_importing_a_curve(
    s: SettingsView,
    points: Seq<CurvePoint>,
    before: ConfigView,
    file: ConfigView,
    summary: Seq<char>,
    why: Seq<char>,
    sent: Option<u128>,
)
    ensures
        ({
            let asked = s.importing(false);
            let valid = s.importing(true);
            let (a, load) = s.next(valid, ReplyOf::Validated(Ok(points)));
            let (b, save) = s.next(load, ReplyOf::Loaded(Ok(before)));
            let (c, mark) = s.next(save, ReplyOf::Saved(Ok(())));
            let (d, then_asked) = s.next(mark, ReplyOf::Acknowledged);
            &&& asked.ask is Import
            &&& valid.ask is Validate
            &&& load.ask is Load
            &&& save.ask == AskView::Save(before.with_curve(s.editing, points))
            &&& mark.ask is MarkSaved
            &&& then_asked == asked
            &&& a == s && b == s && c == s && d == s
            &&& s.next(valid, ReplyOf::Validated(Err(why))).1.ask == AskView::Done(Some(why))
            &&& s.next(load, ReplyOf::Loaded(Err(why))).1.ask == AskView::Done(Some(why))
            &&& s.next(save, ReplyOf::Saved(Err(why))).1.ask == AskView::Done(Some(why))
        }),
        ({
            let asked = s.importing(false);
            let (a, tell) = s.next(asked, ReplyOf::Imported(Some(Ok((file, summary)))));
            let (b, show) = a.next(tell, ReplyOf::Posted(sent));
            let (c, draw) = b.next(show, ReplyOf::Acknowledged);
            let (d, told) = c.next(draw, ReplyOf::Acknowledged);
            let (e, end) = d.next(told, ReplyOf::Acknowledged);
            &&& a == s
            &&& tell.ask == (AskView::Post {
                mode: s.protocol.mode_keep,
                level: 0,
                profile: file.active_profile,
            })
            &&& b == (SettingsView { editing: file.active_profile, config: file, ..s })
            &&& show.ask is ShowActive
            &&& draw.ask is Repaint
            &&& told.ask == AskView::Say(summary)
            &&& end.ask == AskView::Done(None)
            &&& c == b && d == b && e == b
        }),
        ({
            let asked = s.importing(false);
            let (a, told) = s.next(asked, ReplyOf::Imported(Some(Err(why))));
            let (b, end) = s.next(told, ReplyOf::Acknowledged);
            let (c, off) = s.next(asked, ReplyOf::Imported(None));
            &&& a == s && b == s && c == s
            &&& told.ask == AskView::Say(why)
            &&& end.ask == AskView::Done(None)
            &&& off.ask == AskView::Done(None)
        }),
{
}

/// A profile is deleted only after a yes to the question before deleting, and
/// edited in any other way only under a name that was typed for just that.
pub proof fn law_profiles_are_edited_only_on_request(
    s: SettingsView,
    job: JobView,
    reply: ReplyView,
)
    ensures
        s.next(job, reply).1.ask matches AskOf::EditProfiles { action, active, name } ==> {
            &&& active == s.config.active_profile
            &&& {
                ||| {
                    &&& job.purpose is ManageConfirm
                    &&& reply == ReplyView::Answered(true)
                    &&& action == ProfileAction::Delete
                    &&& name == active
                }
                ||| {
                    &&& job.purpose matches ThenOf::ManageName(wanted) && wanted == action
                    &&& reply matches ReplyOf::Named(Some(typed)) && typed == name
                }
            }
        },
        // A name is never asked for in order to delete.
        s.next(job, reply).1.purpose matches ThenOf::ManageName(wanted) ==> wanted
            != ProfileAction::Delete || (job.purpose matches ThenOf::ApplyMarked(
            AfterOf::Manage(a),
        ) && a == ProfileAction::Delete),
        // And no save is made in order to delete.
        s.next(job, reply).1.purpose matches ThenOf::ApplyLoad(AfterOf::Manage(a)) ==> a
            != ProfileAction::Delete,
{
}

// ------------------------------------------------------------------- the file

/// The file is written only with the curve on screen stored under the profile
/// being edited, or with another profile selected, and otherwise as it was just
/// read.
pub proof fn law_the_file_is_written_only_so(s: SettingsView, job: JobView, reply: ReplyView)
    ensures
        s.next(job, reply).1.ask matches AskOf::Save(written) ==> {
            ||| {
                &&& job.purpose matches ThenOf::ApplyStore { points, .. } && reply
                    matches ReplyOf::Loaded(Ok(file)) && written == file.with_curve(
                    s.editing,
                    points,
                )
            }
            ||| {
                &&& job.purpose matches ThenOf::SwitchStore(name) && reply matches ReplyOf::Loaded(
                    Ok(file),
                ) && written == (ConfigView { active_profile: name, ..file })
            }
        },
{
}

/// The engine is told something only in announcing a profile that was just
/// written.
pub proof fn law_the_engine_is_told_only_so(s: SettingsView, job: JobView, reply: ReplyView)
    ensures
        s.next(job, reply).1.ask matches AskOf::Post { mode, level, profile } ==> {
            &&& mode == s.protocol.mode_keep
            &&& level == 0
            &&& {
                ||| job.ask matches AskOf::Save(config) && config.active_profile == profile
                    && job.purpose is SwitchSaved && reply matches ReplyOf::Saved(Ok(_))
                ||| reply matches ReplyOf::ProfilesEdited(Ok(config)) && config.active_profile
                    == profile && job.purpose is ManageEdited
                ||| reply matches ReplyOf::Imported(Some(Ok(outcome)))
                    && outcome.0.active_profile == profile && job.purpose is Imported
            }
        },
{
}

/// Changing a setting or a sensor: the settings in hand become what was written,
/// once it is, and the window is drawn; when it is not, nothing happens.
pub proof fn law_after_writing_a_setting(
    s: SettingsView,
    job: JobView,
    written: ConfigView,
    why: Seq<char>,
)
    requires
        job.purpose is FileSaved,
        job.ask == AskView::Save(written),
    ensures
        s.next(job, ReplyOf::Saved(Ok(()))).0 == (SettingsView { config: written, ..s }),
        s.next(job, ReplyOf::Saved(Ok(()))).1.ask is Repaint,
        s.next(job, ReplyOf::Saved(Err(why))).0 == s,
        s.next(job, ReplyOf::Saved(Err(why))).1.ask is Done,
{
}

/// Discarding: with changes the file is read, and what it stores under the
/// profile being edited is shown, or what it runs when that profile is gone;
/// once shown the window is drawn. Without changes, without a file, and when it
/// cannot be shown, nothing happens.
pub proof fn law_discarding(
    s: SettingsView,
    file: ConfigView,
    at: usize,
    why: Seq<char>,
)
    ensures
        s.beginning(Response::DiscardEdits, false).ask is Done,
        ({
            let load = s.beginning(Response::DiscardEdits, true);
            let (a, shown) = s.next(load, ReplyOf::Loaded(Ok(file)));
            &&& load.ask is Load
            &&& a == s
            &&& s.next(load, ReplyOf::Loaded(Err(why))).0 == s
            &&& s.next(load, ReplyOf::Loaded(Err(why))).1.ask is Done
            &&& at < file.profiles.len() && file.profiles[at as int].name == s.editing && (
            forall|j: int| 0 <= j < at ==> #[trigger] file.profiles[j].name != s.editing)
                ==> shown.ask == (AskView::ShowCurve {
                config: file,
                source: CurveSource::Profile(at),
            })
            &&& (forall|j: int|
                0 <= j < file.profiles.len() ==> #[trigger] file.profiles[j].name != s.editing)
                ==> shown.ask == (AskView::ShowCurve { config: file, source: CurveSource::Active })
            &&& s.next(shown, ReplyOf::Shown(true)).0 == s
            &&& s.next(shown, ReplyOf::Shown(true)).1.ask is Repaint
            &&& s.next(shown, ReplyOf::Shown(false)).0 == s
            &&& s.next(shown, ReplyOf::Shown(false)).1.ask is Done
        }),
{
    if at < file.profiles.len() && file.profiles[at as int].name == s.editing && (forall|j: int|
        0 <= j < at ==> #[trigger] file.profiles[j].name != s.editing) {
        lemma_first(file.profiles, s.editing, at as int);
    }
    lemma_named(file.profiles, s.editing);
}

/// Saving on request, on the way out, and not at all: the curve is asked for,
/// the file read, and written with the curve stored under the profile being
/// edited; then the curve is marked as saved. On request the window is drawn
/// after that and after any failure, and on the way out it is not. The job ends
/// with why it failed, if it did.
pub proof fn law_saving(
    s: SettingsView,
    on_request: bool,
    points: Seq<CurvePoint>,
    file: ConfigView,
    why: Seq<char>,
)
    ensures
        ({
            let valid = if on_request {
                s.beginning(Response::Apply, true)
            } else {
                s.beginning(Response::Close, true)
            };
            let (a, load) = s.next(valid, ReplyOf::Validated(Ok(points)));
            let (b, save) = s.next(load, ReplyOf::Loaded(Ok(file)));
            let (c, mark) = s.next(save, ReplyOf::Saved(Ok(())));
            let (d, saved) = s.next(mark, ReplyOf::Acknowledged);
            let (e, invalid) = s.next(valid, ReplyOf::Validated(Err(why)));
            let (f, unread) = s.next(load, ReplyOf::Loaded(Err(why)));
            let (g, unwritten) = s.next(save, ReplyOf::Saved(Err(why)));
            &&& valid.ask is Validate
            &&& load.ask is Load
            &&& save.ask == AskView::Save(file.with_curve(s.editing, points))
            &&& mark.ask is MarkSaved
            &&& a == s && b == s && c == s && d == s && e == s && f == s && g == s
            &&& unread == invalid && unwritten == invalid
            &&& on_request ==> {
                &&& saved.ask is Repaint
                &&& invalid.ask is Repaint
                &&& s.next(saved, ReplyOf::Acknowledged).1.ask == AskView::Done(None)
                &&& s.next(invalid, ReplyOf::Acknowledged).1.ask == AskView::Done(Some(why))
                &&& s.next(saved, ReplyOf::Acknowledged).0 == s
                &&& s.next(invalid, ReplyOf::Acknowledged).0 == s
            }
            &&& !on_request ==> {
                &&& saved.ask == AskView::Done(None)
                &&& invalid.ask == AskView::Done(Some(why))
            }
        }),
        s.beginning(Response::Apply, false) == s.beginning(Response::Apply, true),
        s.beginning(Response::Close, false).ask == AskView::Done(None),
        s.beginning(Response::Apply, true) == applying(AfterOf::Finish { repaint: true }),
        s.beginning(Response::Close, true) == applying(AfterOf::Finish { repaint: false }),
{
}

/// Clicking the Mode and Level rows: the command is sent with no profile; once
/// sent it is shown and waited for, and the window drawn; with no engine to send
/// it to nothing happens.
pub proof fn law_clicking_the_live_rows(
    s: SettingsView,
    level_row: bool,
    dirty: bool,
    now: u128,
)
    ensures
        ({
            let send = if level_row {
                s.beginning(Response::CycleLevel, dirty)
            } else {
                s.beginning(Response::CycleMode, dirty)
            };
            let wanted = if level_row {
                s.level_click()
            } else {
                s.mode_click()
            };
            &&& send.ask == (AskView::Post {
                mode: wanted.0,
                level: wanted.1,
                profile: Seq::<char>::empty(),
            })
            &&& send == posting(wanted.0, wanted.1)
            &&& s.next(send, ReplyOf::Posted(Some(now))).0 == s.awaiting(wanted.0, wanted.1, now)
            &&& s.next(send, ReplyOf::Posted(Some(now))).1.ask is Repaint
            &&& s.next(send, ReplyOf::Posted(None)).0 == s
            &&& s.next(send, ReplyOf::Posted(None)).1.ask is Done
        }),
{
}

/// The same of any command: it is sent as it is given, and once sent it is shown
/// and waited for.
pub proof fn law_sending_any_command(s: SettingsView, mode: u8, level: u8, now: u128)
    ensures
        ({
            let send = posting(mode, level);
            &&& send.ask == (AskView::Post { mode, level, profile: Seq::<char>::empty() })
            &&& s.next(send, ReplyOf::Posted(Some(now))).0 == s.awaiting(mode, level, now)
            &&& s.next(send, ReplyOf::Posted(Some(now))).1.ask is Repaint
            &&& s.next(send, ReplyOf::Posted(None)).0 == s
            &&& s.next(send, ReplyOf::Posted(None)).1.ask is Done
        }),
{
}

/// What is drawn or said last ends the job with the outcome it was given.
pub proof fn law_the_last_step_ends_the_job(
    s: SettingsView,
    failure: Option<Seq<char>>,
    text: Seq<char>,
)
    ensures
        s.next(drawing(failure), ReplyOf::Acknowledged).0 == s,
        s.next(drawing(failure), ReplyOf::Acknowledged).1.ask == AskView::Done(failure),
        s.next(saying(text), ReplyOf::Acknowledged).0 == s,
        s.next(saying(text), ReplyOf::Acknowledged).1.ask == AskView::Done(None),
{
}

/// What a message starts: the menu by reading the file, and nothing for what is
/// not a command, a save or a look at the file.
pub proof fn law_what_messages_start(s: SettingsView, response: Response, dirty: bool)
    ensures
        s.beginning(Response::OpenProfileMenu, dirty).ask is Load,
        s.beginning(Response::OpenProfileMenu, dirty).purpose is MenuShow,
        !(response is OpenProfileMenu || response is CycleMode || response is CycleLevel
            || response is DiscardEdits || response is Apply || response is Close)
            ==> s.beginning(response, dirty).ask == AskView::Done(None),
{
}

/// A job whose open question has been answered with something else is over, and
/// nothing has changed.
pub proof fn law_other_answers_end_the_job(s: SettingsView, job: JobView, reply: ReplyView)
    ensures
        ({
            let (t, next) = s.next(job, reply);
            let p = job.purpose;
            let fits = {
                ||| p is ApplyLoad && reply is Validated
                ||| (p is ApplyStore || p is MenuShow || p is SwitchStore || p is DiscardFind
                    || p is FollowStore) && reply is Loaded
                ||| (p is ApplySaved || p is SwitchSaved || p is FileSaved) && reply is Saved
                ||| (p is ApplyMarked || p is AdoptShown || p is AdoptRepainted || p is Stop)
                    && reply is Acknowledged
                ||| p is MenuPick && reply is Chosen
                ||| (p is Adopt || p is ModePosted) && reply is Posted
                ||| p is ManageName && reply is Named
                ||| p is ManageConfirm && reply is Answered
                ||| p is ManageEdited && reply is ProfilesEdited
                ||| p is Imported && reply is Imported
                ||| (p is DiscardShown || p is FollowShown) && reply is Shown
            };
            !fits ==> t == s && next.ask == AskView::Done(None)
        }),
{
}

/// The jobs that others are made of: being over, drawing, saying, saving and
/// sending.
pub proof fn law_the_simplest_jobs(
    failure: Option<Seq<char>>,
    text: Seq<char>,
    after: AfterView,
    mode: u8,
    level: u8,
)
    ensures
        over() == ended(None),
        ended(failure).ask == AskView::Done(failure),
        ended(failure).purpose is Nothing,
        repainting() == drawing(None),
        drawing(failure).ask is Repaint,
        drawing(failure).purpose == (ThenView::Stop { failure }),
        saying(text).ask == AskView::Say(text),
        saying(text).purpose == (ThenView::Stop { failure: None }),
        applying(after).ask is Validate,
        applying(after).purpose == ThenView::ApplyLoad(after),
        posting(mode, level).ask == (AskView::Post { mode, level, profile: Seq::<char>::empty() }),
        posting(mode, level).purpose == (ThenView::ModePosted { mode, level }),
{
}

// ------------------------------------------------------------------ messages

/// The first row that is marked: marked itself, with none marked before it, and
/// there is one exactly when some row is marked.
pub proof fn law_the_first_marked_row(rows: Seq<bool>)
    requires
        rows.len() <= usize::MAX,
    ensures
        match marked(rows) {
            Some(i) => i < rows.len() && rows[i as int] && forall|j: int|
                0 <= j < i ==> !#[trigger] rows[j],
            None => forall|j: int| 0 <= j < rows.len() ==> !#[trigger] rows[j],
        },
        marked(rows) is Some <==> marked_from(rows, 0) is Some,
        marked(rows) matches Some(i) ==> marked_from(rows, 0) == Some(i as int),
{
    lemma_marked_from(rows, 0);
}

proof fn lemma_marked_from(rows: Seq<bool>, from: int)
    requires
        0 <= from <= rows.len(),
    ensures
        match marked_from(rows, from) {
            Some(i) => from <= i < rows.len() && rows[i] && forall|j: int|
                from <= j < i ==> !#[trigger] rows[j],
            None => forall|j: int| from <= j < rows.len() ==> !#[trigger] rows[j],
        },
    decreases rows.len() - from,
{
    if from < rows.len() && !rows[from] {
        lemma_marked_from(rows, from + 1);
    }
}

/// The setting under the pointer is that of the first row under it, and so is
/// the row of the chosen point.
pub proof fn law_the_row_under_the_pointer(rows: Seq<bool>, i: int)
    requires
        0 <= i < rows.len(),
        rows[i],
        forall|j: int| 0 <= j < i ==> !#[trigger] rows[j],
    ensures
        rows.len() == 9 ==> knob_marked(rows) == Some(KNOBS@[i]),
        rows.len() == 2 ==> point_knob_marked(rows) == Some(POINT_KNOBS@[i]),
{
    lemma_marked_from(rows, 0);
}

/// No setting and no row of the chosen point is under the pointer when no row
/// is.
pub proof fn law_no_row_under_the_pointer(rows: Seq<bool>)
    requires
        forall|j: int| 0 <= j < rows.len() ==> !#[trigger] rows[j],
    ensures
        knob_marked(rows) is None,
        point_knob_marked(rows) is None,
{
    lemma_marked_from(rows, 0);
}

/// The rows in their order.
pub proof fn law_the_rows_in_order()
    ensures
        KNOBS@ == seq![
            Knob::Poll,
            Knob::Watchdog,
            Knob::Escape,
            Knob::StandbyPoll,
            Knob::StartIn,
            Knob::Logging,
            Knob::ShowWindow,
            Knob::SingleFan,
            Knob::EcLayout,
        ],
        POINT_KNOBS@ == seq![PointKnob::SlowDown, PointKnob::SpeedUp],
{
}

/// Keys: Ctrl+S and Enter save, Escape discards, and every other key does
/// nothing, whatever else is true.
pub proof fn law_what_keys_do(facts: Facts)
    ensures
        ({
            let r = answered(0x0100, false, true, facts);
            let saves = facts.key == 0x0d || (facts.ctrl && facts.key == 0x53);
            &&& r is Apply <==> saves
            &&& r is DiscardEdits <==> facts.key == 0x1b
            &&& r is Nothing <==> !saves && facts.key != 0x1b
        }),
{
}

/// Keys do the same whatever the pointer is on and whatever the curve is like.
pub proof fn law_keys_do_not_look_at_the_rest(a: Facts, b: Facts)
    requires
        a.key == b.key,
        a.ctrl == b.ctrl,
    ensures
        answered(0x0100, false, true, a) == answered(0x0100, false, true, b),
{
}

/// A press of the left button does the first of these that the pointer is on: the
/// picker or the Profile row, the Mode row, the Level row, Discard, Save, the
/// settings rows, the rows of the chosen point; and otherwise looks for a curve
/// point to take hold of. Save does nothing while there is nothing to save.
pub proof fn law_what_a_press_does(facts: Facts, i: int)
    ensures
        ({
            let r = answered(0x0201, false, true, facts);
            let menu = facts.on_picker || facts.on_profile_row;
            let mode = !menu && facts.on_mode_row;
            let level = !menu && !facts.on_mode_row && facts.on_level_row;
            let above = menu || facts.on_mode_row || facts.on_level_row;
            let discard = !above && facts.on_discard;
            let save = !above && !facts.on_discard && facts.on_save;
            let below = !above && !facts.on_discard && !facts.on_save;
            let on_rows = facts.on_tuning_rows@;
            let on_points = facts.on_point_rows@;
            let no_row = forall|j: int| 0 <= j < 9 ==> !#[trigger] on_rows[j];
            let no_point_row = forall|j: int| 0 <= j < 2 ==> !#[trigger] on_points[j];
            &&& r is OpenProfileMenu <==> menu
            &&& r is CycleMode <==> mode
            &&& r is CycleLevel <==> level
            &&& r is DiscardEdits <==> discard
            &&& r is Apply <==> save && facts.dirty
            &&& r is Nothing <==> save && !facts.dirty
            &&& r is ChangeSetting <==> below && !no_row
            &&& below && 0 <= i < 9 && on_rows[i] && (forall|j: int|
                0 <= j < i ==> !#[trigger] on_rows[j]) ==> r == Response::ChangeSetting(KNOBS@[i])
            &&& r is StepPoint <==> below && no_row && !no_point_row
            &&& below && no_row && 0 <= i < 2 && on_points[i] && (forall|j: int|
                0 <= j < i ==> !#[trigger] on_points[j]) ==> r == Response::StepPoint(
                POINT_KNOBS@[i],
            )
            &&& r is Grab <==> below && no_row && no_point_row
        }),
{
    lemma_marked_from(facts.on_tuning_rows@, 0);
    lemma_marked_from(facts.on_point_rows@, 0);
}

/// The other messages of the mouse. Moving drags while a point is held and
/// lights up what it is over otherwise; letting go releases a point that is
/// held; a double click adds a point on the graph and nowhere else; the right
/// button toggles the sensor it is on, or takes out the point it is on, in that
/// order.
pub proof fn law_what_the_mouse_does(facts: Facts)
    ensures
        answered(0x0200, false, true, facts) == if facts.dragging {
            Response::Drag
        } else {
            Response::Hover
        },
        answered(0x0202, false, true, facts) == if facts.dragging {
            Response::Release
        } else {
            Response::Nothing
        },
        answered(0x0203, false, true, facts) == if facts.on_canvas {
            Response::AddPoint
        } else {
            Response::Nothing
        },
        facts.sensor_row matches Some(sensor) ==> answered(0x0205, false, true, facts)
            == Response::ToggleIgnored(sensor),
        facts.sensor_row is None ==> (facts.curve_point matches Some(point) ==> answered(
            0x0205,
            false,
            true,
            facts,
        ) == Response::RemovePoint(point)),
        facts.sensor_row is None && facts.curve_point is None ==> answered(
            0x0205,
            false,
            true,
            facts,
        ) is Nothing,
{
}

/// The messages of the window itself, whatever else is true; and every message
/// not spoken of is left to the system.
pub proof fn law_what_window_messages_do(message: u32, facts: Facts)
    ensures
        ({
            let r = answered(message, false, true, facts);
            &&& r is Paint <==> message == 0x000f
            &&& r is Resize <==> message == 0x0005
            &&& r is AdoptRectangle <==> message == 0x02e0
            &&& r is AnswerMinimum <==> message == 0x0024
            &&& r is Close <==> message == 0x0010
            &&& r is Forget <==> message == 0x0002
            &&& r is PassOn <==> message != 0x000f && message != 0x0005 && message != 0x02e0
                && message != 0x0024 && message != 0x0010 && message != 0x0002 && message
                != 0x0100 && message != 0x0200 && message != 0x0201 && message != 0x0202
                && message != 0x0203 && message != 0x0205
            &&& !(r is HoldPointer) && !(r is Deselect)
        }),
{
}

/// While a dialog is open only closing is answered, by refusing it; and without a
/// window behind the message nothing is.
pub proof fn law_when_nothing_is_answered(message: u32, present: bool, facts: Facts)
    ensures
        message == 0x0010 ==> answered(message, true, present, facts) is Nothing,
        message != 0x0010 ==> answered(message, true, present, facts) is PassOn,
        answered(message, false, false, facts) is PassOn,
{
}

// ------------------------------------------------------------------ the views

/// What the settings are as a mathematical value is what they hold, field by
/// field.
pub proof fn law_a_view_shows_every_setting(config: Config, i: int)
    ensures
        config@.poll_secs == config.poll_secs,
        config@.watchdog_secs == config.watchdog_secs,
        config@.standby_poll_secs == config.standby_poll_secs,
        config@.manual_escape_c == config.manual_escape_c,
        config@.fahrenheit == config.fahrenheit,
        config@.startup_mode == config.startup_mode,
        config@.log_enabled == config.log_enabled,
        config@.log_max_mb == config.log_max_mb,
        config@.show_window_on_start == config.show_window_on_start,
        config@.single_fan == config.single_fan,
        config@.ec_layout == config.ec_layout,
        config@.ignored_sensors == config.ignored_sensors@,
        config@.active_profile == config.active_profile@,
        config@.profiles.len() == config.profiles@.len(),
        0 <= i < config.profiles@.len() ==> config@.profiles[i].name == config.profiles@[i].name@
            && config@.profiles[i].points == config.profiles@[i].points@,
{
}

/// The same of a report and of the window.
pub proof fn law_a_view_shows_the_whole_window(s: Settings, readout: Readout)
    ensures
        readout@.sensors == readout.sensors@,
        readout@.hottest == readout.hottest,
        readout@.fan_rpm == readout.fan_rpm@,
        readout@.mode == readout.mode@,
        readout@.mode_raw == readout.mode_raw,
        readout@.fan_ctrl == readout.fan_ctrl,
        readout@.profile == readout.profile@,
        readout@.fault == readout.fault,
        readout@.status == readout.status,
        readout@.single_fan_hint == readout.single_fan_hint,
        readout@.layout_hint == readout.layout_hint,
        s@.protocol == s.protocol,
        s@.pending == s.pending,
        s@.readout == s.readout@,
        s@.editing == s.editing@,
        s@.config == s.config@,
        s@.hover == s.hover,
{
}

/// The same of a job's question, of an answer, and of a line of the menu.
pub proof fn law_a_view_shows_the_whole_job(
    ask: Ask,
    reply: Reply,
    job: Job,
    line: MenuItem,
    after: After,
    purpose: Then,
)
    ensures
        job@.ask == job.ask@,
        job@.purpose == job.purpose@,
        match ask {
            AskOf::Validate => ask@ is Validate,
            AskOf::Load => ask@ is Load,
            AskOf::Save(config) => ask@ == AskView::Save(config@),
            AskOf::MarkSaved => ask@ is MarkSaved,
            AskOf::Menu(lines) => ask@ matches AskOf::Menu(views) && views.len() == lines@.len()
                && forall|i: int| 0 <= i < views.len() ==> #[trigger] views[i] == lines@[i]@,
            AskOf::Name { title, initial } => ask@ == (AskView::Name {
                title: title@,
                initial: initial@,
            }),
            AskOf::Confirm(text) => ask@ == AskView::Confirm(text@),
            AskOf::EditProfiles { action, active, name } => ask@ == (AskView::EditProfiles {
                action,
                active: active@,
                name: name@,
            }),
            AskOf::Import => ask@ is Import,
            AskOf::Post { mode, level, profile } => ask@ == (AskView::Post {
                mode,
                level,
                profile: profile@,
            }),
            AskOf::ShowCurve { config, source } => ask@ == (AskView::ShowCurve {
                config: config@,
                source,
            }),
            AskOf::ShowActive => ask@ is ShowActive,
            AskOf::Repaint => ask@ is Repaint,
            AskOf::Say(text) => ask@ == AskView::Say(text@),
            AskOf::Done(None) => ask@ == AskView::Done(None),
            AskOf::Done(Some(why)) => ask@ == AskView::Done(Some(why@)),
        },
        match reply {
            ReplyOf::Validated(Ok(points)) => reply@ == ReplyView::Validated(Ok(points@)),
            ReplyOf::Validated(Err(why)) => reply@ == ReplyView::Validated(Err(why@)),
            ReplyOf::Loaded(Ok(config)) => reply@ == ReplyView::Loaded(Ok(config@)),
            ReplyOf::Loaded(Err(why)) => reply@ == ReplyView::Loaded(Err(why@)),
            ReplyOf::Saved(Ok(_)) => reply@ matches ReplyOf::Saved(Ok(_)),
            ReplyOf::Saved(Err(why)) => reply@ == ReplyView::Saved(Err(why@)),
            ReplyOf::Acknowledged => reply@ is Acknowledged,
            ReplyOf::Chosen { id, dirty } => reply@ == (ReplyView::Chosen { id, dirty }),
            ReplyOf::Named(Some(name)) => reply@ == ReplyView::Named(Some(name@)),
            ReplyOf::Named(None) => reply@ == ReplyView::Named(None),
            ReplyOf::Answered(yes) => reply@ == ReplyView::Answered(yes),
            ReplyOf::ProfilesEdited(Ok(config)) => reply@ == ReplyView::ProfilesEdited(Ok(config@)),
            ReplyOf::ProfilesEdited(Err(why)) => reply@ == ReplyView::ProfilesEdited(Err(why@)),
            ReplyOf::Imported(None) => reply@ == ReplyView::Imported(None),
            ReplyOf::Imported(Some(Ok(outcome))) => reply@ == ReplyView::Imported(
                Some(Ok((outcome.0@, outcome.1@))),
            ),
            ReplyOf::Imported(Some(Err(why))) => reply@ == ReplyView::Imported(Some(Err(why@))),
            ReplyOf::Posted(at) => reply@ == ReplyView::Posted(at),
            ReplyOf::Shown(ok) => reply@ == ReplyView::Shown(ok),
        },
        match line {
            MenuLine::Item { id, text, checked, enabled } => line@ == (MenuLine::Item {
                id,
                text: text@,
                checked,
                enabled,
            }),
            MenuLine::Separator => line@ is Separator,
        },
        match after {
            AfterOf::Finish { repaint } => after@ == (AfterView::Finish { repaint }),
            AfterOf::Switch(name) => after@ == AfterView::Switch(name@),
            AfterOf::Manage(action) => after@ == AfterView::Manage(action),
            AfterOf::Import => after@ is Import,
            AfterOf::Follow(config) => after@ == AfterView::Follow(config@),
        },
        match purpose {
            ThenOf::ApplyLoad(a) => purpose@ == ThenView::ApplyLoad(a@),
            ThenOf::ApplyStore { points, after: a } => purpose@ == (ThenView::ApplyStore {
                points: points@,
                after: a@,
            }),
            ThenOf::ApplySaved(a) => purpose@ == ThenView::ApplySaved(a@),
            ThenOf::ApplyMarked(a) => purpose@ == ThenView::ApplyMarked(a@),
            ThenOf::MenuShow => purpose@ is MenuShow,
            ThenOf::MenuPick { names } => purpose@ matches ThenOf::MenuPick { names: views }
                && views.len() == names@.len() && forall|i: int|
                0 <= i < views.len() ==> #[trigger] views[i] == names@[i]@,
            ThenOf::SwitchStore(name) => purpose@ == ThenView::SwitchStore(name@),
            ThenOf::SwitchSaved => purpose@ is SwitchSaved,
            ThenOf::Adopt { config, say: None } => purpose@ == (ThenView::Adopt {
                config: config@,
                say: None,
            }),
            ThenOf::Adopt { config, say: Some(text) } => purpose@ == (ThenView::Adopt {
                config: config@,
                say: Some(text@),
            }),
            ThenOf::AdoptShown { say: None } => purpose@ == (ThenView::AdoptShown { say: None }),
            ThenOf::AdoptShown { say: Some(text) } => purpose@ == (ThenView::AdoptShown {
                say: Some(text@),
            }),
            ThenOf::AdoptRepainted { say: None } => purpose@ == (ThenView::AdoptRepainted {
                say: None,
            }),
            ThenOf::AdoptRepainted { say: Some(text) } => purpose@ == (ThenView::AdoptRepainted {
                say: Some(text@),
            }),
            ThenOf::ManageName(action) => purpose@ == ThenView::ManageName(action),
            ThenOf::ManageConfirm => purpose@ is ManageConfirm,
            ThenOf::ManageEdited => purpose@ is ManageEdited,
            ThenOf::Imported => purpose@ is Imported,
            ThenOf::DiscardFind => purpose@ is DiscardFind,
            ThenOf::DiscardShown => purpose@ is DiscardShown,
            ThenOf::FollowStore { dirty } => purpose@ == (ThenView::FollowStore { dirty }),
            ThenOf::FollowShown => purpose@ is FollowShown,
            ThenOf::FileSaved => purpose@ is FileSaved,
            ThenOf::ModePosted { mode, level } => purpose@ == (ThenView::ModePosted {
                mode,
                level,
            }),
            ThenOf::Stop { failure: None } => purpose@ == (ThenView::Stop { failure: None }),
            ThenOf::Stop { failure: Some(why) } => purpose@ == (ThenView::Stop {
                failure: Some(why@),
            }),
            ThenOf::Nothing => purpose@ is Nothing,
        },
{
}

/// Lists are viewed item by item, in order and without leaving any out.
pub proof fn law_lists_are_viewed_item_by_item(
    profiles: Seq<Profile>,
    lines: Seq<MenuItem>,
    names: Seq<String>,
    text: Option<String>,
    i: int,
)
    ensures
        profile_views(profiles).len() == profiles.len(),
        0 <= i < profiles.len() ==> profile_views(profiles)[i].name == profiles[i].name@
            && profile_views(profiles)[i].points == profiles[i].points@,
        menu_views(lines).len() == lines.len(),
        0 <= i < lines.len() ==> menu_views(lines)[i] == lines[i]@,
        name_views(names).len() == names.len(),
        0 <= i < names.len() ==> name_views(names)[i] == names[i]@,
        text is None ==> text_view(text) is None,
        text matches Some(words) ==> text_view(text) == Some(words@),
{
}

// -------------------------------------------------------- what is asked of callers

/// Limits are fit to be used exactly when the poll range holds every preset of
/// its row and the other two ranges hold something.
pub proof fn law_which_limits_can_be_used(limits: Limits)
    ensures
        limits.well_formed() <==> {
            &&& limits.poll_secs_min <= 1
            &&& 60 <= limits.poll_secs_max
            &&& limits.standby_poll_secs_min <= limits.standby_poll_secs_max
            &&& limits.manual_escape_min <= limits.manual_escape_max
        },
{
}

/// Conversions are fit to be used when they answer everything, and the same
/// whenever they are asked the same.
pub proof fn law_which_conversions_can_be_used<D: Fn(i8, bool) -> i32, U: Fn(bool) -> String>(
    display_temp: D,
    unit_suffix: U,
)
    requires
        forall|celsius: i8, fahrenheit: bool| #[trigger]
            display_temp.requires((celsius, fahrenheit)),
        forall|fahrenheit: bool| #[trigger] unit_suffix.requires((fahrenheit,)),
        forall|celsius: i8, fahrenheit: bool, a: i32, b: i32|
            #[trigger] display_temp.ensures((celsius, fahrenheit), a)
                && #[trigger] display_temp.ensures((celsius, fahrenheit), b) ==> a == b,
        forall|fahrenheit: bool, a: String, b: String|
            #[trigger] unit_suffix.ensures((fahrenheit,), a) && #[trigger] unit_suffix.ensures(
                (fahrenheit,),
                b,
            ) ==> a@ == b@,
    ensures
        answers_temps(display_temp, unit_suffix),
{
}

/// The modes of a protocol are distinct exactly when no two of them are equal.
pub proof fn law_when_modes_are_distinct(protocol: Protocol)
    ensures
        protocol.distinct() <==> {
            &&& protocol.mode_bios != protocol.mode_smart
            &&& protocol.mode_bios != protocol.mode_manual
            &&& protocol.mode_smart != protocol.mode_manual
        },
{
}

} // verus!
