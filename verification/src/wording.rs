//! What the window says, and in which tone, told by what goes in and what comes
//! out.

use crate::config::{ConfigView, CurvePoint, EcLayout, StartupMode};
use crate::knob::{answers_temps, shows_temp, Knob, KNOBS};
use crate::panel::{
    ctrl_words, fan_words, fault_panel_for, grid_line_for, headline_for, hint_words,
    point_does, point_row_views, reading_rows, readout_panel_for, row_view, row_views,
    sensor_row_for, style_of, tuning_row_for, Align, FaultPanel, GridLine, Headline, ReadoutPanel,
    Row, RowRole, RowView, SensorRow, StatusWords, TextRole, Tone,
};
use crate::point::{run_at, waits_at, waits_before, PointKnob, Wait};
use crate::readout::{level_held, Protocol, ReadoutView, SENSOR_NAMES};
use crate::settings::{Hover, SettingsView};
use crate::text::{decimal, decimal_nat, digit_char, hex_byte};
use vstd::prelude::*;

verus! {

// ------------------------------------------------------------------- numbers

/// Digits are the characters from '0' to '9' and from 'a' to 'f', in order.
pub proof fn law_digits_in_order(d: int)
    ensures
        0 <= d < 10 ==> digit_char(d) as int == '0' as int + d,
        10 <= d < 16 ==> digit_char(d) as int == 'a' as int + d - 10,
{
}

/// A number is written digit by digit: one below ten as its digit, and any other
/// as its tenth part followed by the digit that is left.
pub proof fn law_numbers_are_written_digit_by_digit(n: nat)
    ensures
        n < 10 ==> decimal_nat(n).len() == 1 && decimal_nat(n)[0] as int == '0' as int + n,
        n >= 10 ==> decimal_nat(n).len() == decimal_nat(n / 10).len() + 1 && decimal_nat(
            n,
        ).drop_last() == decimal_nat(n / 10) && decimal_nat(n).last() as int == '0' as int + n
            % 10,
        decimal(n as int) == decimal_nat(n),
        n > 0 ==> decimal(-(n as int)).len() == decimal_nat(n).len() + 1 && decimal(
            -(n as int),
        )[0] == '-' && decimal(-(n as int)).drop_first() == decimal_nat(n),
{
    if n >= 10 {
        assert(decimal_nat(n).drop_last() == decimal_nat(n / 10));
    }
    if n > 0 {
        assert(decimal(-(n as int)).drop_first() == decimal_nat(n));
    }
}

/// No number but zero begins with a zero.
pub proof fn law_no_leading_zeros(n: nat)
    ensures
        decimal_nat(n).len() > 0,
        n > 0 ==> decimal_nat(n)[0] != '0',
    decreases n,
{
    if n >= 10 {
        law_no_leading_zeros(n / 10);
    }
}

/// Different numbers are written differently.
pub proof fn law_numbers_can_be_told_apart(a: nat, b: nat)
    ensures
        decimal_nat(a) == decimal_nat(b) ==> a == b,
    decreases a,
{
    law_no_leading_zeros(a);
    law_no_leading_zeros(b);
    law_numbers_are_written_digit_by_digit(a);
    law_numbers_are_written_digit_by_digit(b);
    if decimal_nat(a) == decimal_nat(b) {
        if a >= 10 && b >= 10 {
            law_numbers_can_be_told_apart(a / 10, b / 10);
        } else if a >= 10 {
            law_no_leading_zeros(a / 10);
        } else if b >= 10 {
            law_no_leading_zeros(b / 10);
        }
    }
}

/// A byte is two digits, the sixteens and what is left.
pub proof fn law_bytes_are_two_digits(b: u8)
    ensures
        hex_byte(b).len() == 2,
        hex_byte(b)[0] == digit_char(b as int / 16),
        hex_byte(b)[1] == digit_char(b as int % 16),
{
}

/// A temperature is the number on display, immediately followed by the unit, and
/// nothing else.
pub proof fn law_a_temperature_in_words<D: Fn(i8, bool) -> i32, U: Fn(bool) -> String>(
    display_temp: D,
    unit_suffix: U,
    celsius: i8,
    fahrenheit: bool,
    text: Seq<char>,
    shown: i32,
    suffix: String,
)
    requires
        answers_temps(display_temp, unit_suffix),
        display_temp.ensures((celsius, fahrenheit), shown),
        unit_suffix.ensures((fahrenheit,), suffix),
    ensures
        shows_temp(display_temp, unit_suffix, celsius, fahrenheit, text) <==> text == decimal(
            shown as int,
        ) + suffix@,
{
}

// ---------------------------------------------------------- the settings rows

/// What every row is called.
pub proof fn law_what_rows_are_called(knob: Knob)
    ensures
        knob == Knob::Poll ==> knob.label_words() == "Poll"@,
        knob == Knob::Watchdog ==> knob.label_words() == "Watchdog"@,
        knob == Knob::Escape ==> knob.label_words() == "Manual escape"@,
        knob == Knob::StandbyPoll ==> knob.label_words() == "Standby poll"@,
        knob == Knob::StartIn ==> knob.label_words() == "Start in"@,
        knob == Knob::Logging ==> knob.label_words() == "Logging"@,
        knob == Knob::ShowWindow ==> knob.label_words() == "Open at start"@,
        knob == Knob::SingleFan ==> knob.label_words() == "Fans"@,
        knob == Knob::EcLayout ==> knob.label_words() == "Controller mode"@,
{
}

/// What every row says it is for.
pub proof fn law_what_rows_are_for(knob: Knob)
    ensures
        knob == Knob::Poll ==> knob.description()
            == "How often the sensors are read and the fan level decided again."@,
        knob == Knob::Watchdog ==> knob.description()
            == "If no decision happens for this long, the fan goes back to the firmware."@,
        knob == Knob::Escape ==> knob.description()
            == "A fixed level is held whatever happens. This is the temperature that ends it."@,
        knob == Knob::StandbyPoll ==> knob.description()
            == "The poll interval once the machine is asleep. Slower, to save its battery."@,
        knob == Knob::StartIn ==> knob.description()
            == "Which mode the engine begins in when it starts. Nothing here moves the fan."@,
        knob == Knob::Logging ==> knob.description()
            == "Writes readings and decisions to a CSV in ProgramData, rotated so it cannot grow."@,
        knob == Knob::ShowWindow ==> knob.description()
            == "Whether this window opens when Yamato starts, or it goes straight to the tray."@,
        knob == Knob::SingleFan ==> knob.description()
            == "Whether this machine has a second fan. Set Single if fan 2 never reports a speed."@,
        knob == Knob::EcLayout ==> knob.description()
            == "Advanced. Applies at the next start. The wrong mode stops fan control."@,
{
}

/// Every row reads its own setting: intervals in seconds, the escape as a
/// temperature, and the others by name.
pub proof fn law_rows_read_their_own_setting<D: Fn(i8, bool) -> i32, U: Fn(bool) -> String>(
    knob: Knob,
    config: ConfigView,
    display_temp: D,
    unit_suffix: U,
    text: Seq<char>,
)
    requires
        knob.reads(config, display_temp, unit_suffix, text),
    ensures
        knob == Knob::Poll ==> text == decimal(config.poll_secs as int) + " s"@,
        knob == Knob::Watchdog ==> text == decimal(config.watchdog_secs as int) + " s"@,
        knob == Knob::StandbyPoll ==> text == decimal(config.standby_poll_secs as int) + " s"@,
        knob == Knob::Escape ==> shows_temp(
            display_temp,
            unit_suffix,
            config.manual_escape_c,
            config.fahrenheit,
            text,
        ),
        knob == Knob::StartIn && config.startup_mode == StartupMode::Bios ==> text == "BIOS"@,
        knob == Knob::StartIn && config.startup_mode == StartupMode::Smart ==> text == "Smart"@,
        knob == Knob::Logging && config.log_enabled ==> text == "On"@,
        knob == Knob::Logging && !config.log_enabled ==> text == "Off"@,
        knob == Knob::ShowWindow && config.show_window_on_start ==> text == "Window"@,
        knob == Knob::ShowWindow && !config.show_window_on_start ==> text == "Tray only"@,
        knob == Knob::SingleFan && config.single_fan ==> text == "Single"@,
        knob == Knob::SingleFan && !config.single_fan ==> text == "Dual"@,
        knob == Knob::EcLayout && config.ec_layout == Some(EcLayout::Compat) ==> text
            == "Compatibility"@,
        knob == Knob::EcLayout && config.ec_layout == Some(EcLayout::Standard) ==> text
            == "Standard"@,
        knob == Knob::EcLayout && config.ec_layout is None ==> text == "Standard"@,
{
}

/// A settings row on screen has the name and the value of the setting at its
/// position, and a click on it changes just that one. It is never lit, and an
/// empty value is shown as a dash.
pub proof fn law_settings_rows_on_screen<D: Fn(i8, bool) -> i32, U: Fn(bool) -> String>(
    row: RowView,
    config: ConfigView,
    i: int,
    display_temp: D,
    unit_suffix: U,
)
    requires
        0 <= i < 9,
        tuning_row_for(row, config, i, display_temp, unit_suffix),
    ensures
        row.label == KNOBS@[i].label_words(),
        row.role == RowRole::Setting(i as usize),
        !row.lit,
        exists|value: Seq<char>|
            {
                &&& #[trigger] KNOBS@[i].reads(config, display_temp, unit_suffix, value)
                &&& value.len() > 0 ==> row.value == value && row.tone == Tone::Yellow
                &&& value.len() == 0 ==> row.value == "--"@ && row.tone == Tone::Faint
            },
{
}

/// A row has its label, its role and its light as given, and its value and tone
/// too unless the value is empty, which is a faint dash.
pub proof fn law_a_row(
    label: Seq<char>,
    value: Seq<char>,
    tone: Tone,
    lit: bool,
    role: RowRole,
)
    ensures
        ({
            let row = row_view(label, value, tone, lit, role);
            &&& row.label == label
            &&& row.lit == lit
            &&& row.role == role
            &&& value.len() > 0 ==> row.value == value && row.tone == tone
            &&& value.len() == 0 ==> row.value == "--"@ && row.tone == Tone::Faint
        }),
{
}

/// A row as a mathematical value is what it holds, field by field.
pub proof fn law_a_view_shows_the_whole_row(rows: Seq<Row>, i: int)
    ensures
        row_views(rows).len() == rows.len(),
        0 <= i < rows.len() ==> {
            &&& row_views(rows)[i].label == rows[i].label@
            &&& row_views(rows)[i].value == rows[i].value@
            &&& row_views(rows)[i].tone == rows[i].tone
            &&& row_views(rows)[i].lit == rows[i].lit
            &&& row_views(rows)[i].role == rows[i].role
            &&& rows[i]@ == row_views(rows)[i]
        },
{
}

/// The hint: of the Mode, Level and Profile rows the first that the pointer is
/// on, then the settings row it is on, and otherwise the standing one.
pub proof fn law_what_the_hint_says(hover: Hover)
    ensures
        hover.mode ==> hint_words(hover)
            == "Click Mode for the firmware, your curve, or a level you hold yourself."@,
        !hover.mode && hover.level ==> hint_words(hover)
            == "Click Level to step it, 1 to 7. A held level turns the firmware's own thermal management off."@,
        !hover.mode && !hover.level && hover.profile ==> hint_words(hover)
            == "Click Profile to switch curves, or to add, rename or delete one."@,
        !hover.mode && !hover.level && !hover.profile ==> {
            &&& hover.knob matches Some(i) ==> (i < 9 ==> hint_words(hover)
                == KNOBS@[i as int].description())
            &&& hover.knob matches Some(i) ==> (i >= 9 ==> hint_words(hover)
                == "Click a value to change it. Right-click a sensor to leave it out of the decision."@)
            &&& hover.knob is None ==> hint_words(hover)
                == "Click a value to change it. Right-click a sensor to leave it out of the decision."@
        },
{
}

// ------------------------------------------------------------ the chosen point

/// The rows of a point: how much cooler before the fan slows down, and how much
/// hotter before it speeds up.
pub proof fn law_what_a_point_waits_for(point: CurvePoint)
    ensures
        PointKnob::SlowDown.label_words() == "Slows down"@,
        PointKnob::SpeedUp.label_words() == "Speeds up"@,
        point.hyst_down == 0 ==> PointKnob::SlowDown.value_words(point) == "right away"@,
        point.hyst_down != 0 ==> PointKnob::SlowDown.value_words(point) == decimal(
            point.hyst_down as int,
        ) + "\u{00b0} cooler"@,
        point.hyst_up == 0 ==> PointKnob::SpeedUp.value_words(point) == "right away"@,
        point.hyst_up != 0 ==> PointKnob::SpeedUp.value_words(point) == decimal(
            point.hyst_up as int,
        ) + "\u{00b0} hotter"@,
{
}

/// The rows of a point on screen, in order, each changing what it is about.
pub proof fn law_point_rows_on_screen(point: CurvePoint)
    ensures
        ({
            let rows = point_row_views(point);
            &&& rows.len() == 2
            &&& rows[0].label == "Slows down"@
            &&& rows[0].value == PointKnob::SlowDown.value_words(point)
            &&& rows[0].role == RowRole::Point(0)
            &&& rows[1].label == "Speeds up"@
            &&& rows[1].value == PointKnob::SpeedUp.value_words(point)
            &&& rows[1].role == RowRole::Point(1)
            &&& rows[0].tone == Tone::Yellow && rows[1].tone == Tone::Yellow
            &&& !rows[0].lit && !rows[1].lit
        }),
{
    reveal_strlit("right away");
    reveal_strlit("\u{00b0} cooler");
    reveal_strlit("\u{00b0} hotter");
    assert(PointKnob::SlowDown.value_words(point).len() > 0);
    assert(PointKnob::SpeedUp.value_words(point).len() > 0);
}

/// What a point does: hands over to the firmware, or runs the fan at its level.
pub proof fn law_what_a_point_does(point: CurvePoint)
    ensures
        point_does(point, true) == "hands over to the BIOS"@,
        point_does(point, false) == "runs the fan at "@ + decimal(point.level as int),
{
}

// --------------------------------------------------------------- the curve

/// A run starts at its point, at its level, and ends where the next one starts,
/// which runs the next point's level; the last ends nowhere.
pub proof fn law_what_a_run_is(points: Seq<CurvePoint>, i: int)
    requires
        0 <= i < points.len(),
    ensures
        run_at(points, i).from == points[i].temp,
        run_at(points, i).level == points[i].level,
        i + 1 < points.len() ==> run_at(points, i).until == Some(points[i + 1].temp),
        i + 1 < points.len() ==> run_at(points, i).next_level == Some(points[i + 1].level),
        i + 1 == points.len() ==> run_at(points, i).until is None,
        i + 1 == points.len() ==> run_at(points, i).next_level is None,
{
}

/// The waits of a curve with one more point at its end are those it had, then
/// the new point's: while cooling, where it has room for that, from that room
/// below its temperature; and while heating up, where it has room for that, to
/// that room above. The first point has none.
pub proof fn law_the_waits_of_a_curve(points: Seq<CurvePoint>, point: CurvePoint)
    ensures
        points.len() == 0 ==> waits_before(points, 0) == Seq::<Wait>::empty(),
        points.len() == 0 ==> waits_before(points.push(point), 1) == Seq::<Wait>::empty(),
        points.len() > 0 ==> {
            let n = points.len() as int;
            let had = waits_before(points, n);
            let has = waits_before(points.push(point), n + 1);
            let cooling = Wait {
                at: point.temp,
                from: (point.temp - point.hyst_down) as i32,
                until: point.temp as i32,
                upper_level: point.level,
                lower_level: points.last().level,
                cooling: true,
            };
            let heating = Wait {
                at: point.temp,
                from: point.temp as i32,
                until: (point.temp + point.hyst_up) as i32,
                upper_level: point.level,
                lower_level: points.last().level,
                cooling: false,
            };
            &&& point.hyst_down > 0 && point.hyst_up > 0 ==> has == had.push(cooling).push(heating)
            &&& point.hyst_down > 0 && point.hyst_up <= 0 ==> has == had.push(cooling)
            &&& point.hyst_down <= 0 && point.hyst_up > 0 ==> has == had.push(heating)
            &&& point.hyst_down <= 0 && point.hyst_up <= 0 ==> has == had
        },
{
    if points.len() > 0 {
        let n = points.len() as int;
        lemma_waits_of_the_first(points, point, n);
        let had = waits_before(points, n);
        let has = waits_before(points.push(point), n + 1);
        assert(waits_before(points.push(point), n) == had);
        assert(points.push(point)[n] == point);
        assert(points.push(point)[n - 1] == points.last());
        assert(has == had + waits_at(points.push(point), n));
    }
}

proof fn lemma_waits_of_the_first(points: Seq<CurvePoint>, point: CurvePoint, n: int)
    requires
        0 <= n <= points.len(),
    ensures
        waits_before(points.push(point), n) == waits_before(points, n),
    decreases n,
{
    if n > 1 {
        lemma_waits_of_the_first(points, point, n - 1);
        assert(points.push(point)[n - 1] == points[n - 1]);
        assert(points.push(point)[n - 2] == points[n - 2]);
    }
}

// ------------------------------------------------------------ the readings

/// The control register in words.
pub proof fn law_the_register_in_words(fan_ctrl: u8)
    ensures
        fan_ctrl == 0x80 ==> ctrl_words(fan_ctrl) == "0x80 (BIOS)"@,
        fan_ctrl == 0x40 ==> ctrl_words(fan_ctrl) == "0x40 (Disengaged)"@,
        fan_ctrl <= 7 ==> ctrl_words(fan_ctrl) == "0x"@ + hex_byte(fan_ctrl) + " (Level "@
            + decimal(fan_ctrl as int) + ")"@,
        fan_ctrl > 7 && fan_ctrl != 0x40 && fan_ctrl != 0x80 ==> ctrl_words(fan_ctrl) == "0x"@
            + hex_byte(fan_ctrl),
{
}

/// The fan speeds in words: both while the second fan turns, and the first alone
/// while it does not.
pub proof fn law_the_speeds_in_words(first: u16, second: u16)
    ensures
        second > 0 ==> fan_words(first, second) == decimal(first as int) + " / "@ + decimal(
            second as int,
        ) + " rpm"@,
        second == 0 ==> fan_words(first, second) == decimal(first as int) + " rpm"@,
{
}

/// The rows of the readings, in order: the mode and the profile that the engine
/// reports, lit while the pointer is on them, the control register, the speeds,
/// and the level while one is held.
pub proof fn law_what_the_readings_say(s: SettingsView)
    ensures
        ({
            let rows = reading_rows(s);
            let r = s.readout;
            let held = r.mode_raw == s.protocol.mode_manual;
            &&& rows.len() == if held {
                5int
            } else {
                4int
            }
            &&& rows[0].label == "Mode"@ && rows[0].role == RowRole::Mode
            &&& rows[0].lit == s.hover.mode
            &&& r.mode.len() > 0 ==> rows[0].value == r.mode && rows[0].tone == Tone::Yellow
            &&& r.mode.len() == 0 ==> rows[0].value == "--"@ && rows[0].tone == Tone::Faint
            &&& rows[1].label == "Profile"@ && rows[1].role == RowRole::Profile
            &&& rows[1].lit == s.hover.profile
            &&& r.profile.len() > 0 ==> rows[1].value == r.profile && rows[1].tone
                == Tone::Yellow
            &&& r.profile.len() == 0 ==> rows[1].value == "--"@ && rows[1].tone == Tone::Faint
            &&& rows[2].label == "EC Ctrl"@ && rows[2].role == RowRole::Reading && !rows[2].lit
            &&& rows[2].value == ctrl_words(r.fan_ctrl) && rows[2].tone == Tone::Text
            &&& rows[3].label == "Fan"@ && rows[3].role == RowRole::Reading && !rows[3].lit
            &&& rows[3].value == fan_words(r.fan_rpm[0], r.fan_rpm[1]) && rows[3].tone
                == Tone::Text
            &&& held ==> {
                &&& rows[4].label == "Level"@
                &&& rows[4].role == RowRole::Level
                &&& rows[4].lit == s.hover.level
                &&& rows[4].tone == Tone::Yellow
                &&& 1 <= r.fan_ctrl <= 7 ==> rows[4].value == decimal(r.fan_ctrl as int)
                &&& r.fan_ctrl == 0 || r.fan_ctrl > 7 ==> rows[4].value == decimal(4)
            }
        }),
{
    let r = s.readout;
    reveal_strlit("0x");
    reveal_strlit("0x80 (BIOS)");
    reveal_strlit("0x40 (Disengaged)");
    reveal_strlit(" rpm");
    law_no_leading_zeros(level_held(r.fan_ctrl) as nat);
    assert(ctrl_words(r.fan_ctrl).len() > 0);
    assert(fan_words(r.fan_rpm[0], r.fan_rpm[1]).len() > 0);
    assert(decimal(level_held(r.fan_ctrl) as int).len() > 0);
}

/// What the sensors are called, in the order the controller reports them.
pub proof fn law_what_sensors_are_called()
    ensures
        SENSOR_NAMES@.len() == 12,
        SENSOR_NAMES@[0]@ == "CPU"@,
        SENSOR_NAMES@[1]@ == "GPU"@,
        SENSOR_NAMES@[2]@ == "Board"@,
        SENSOR_NAMES@[3]@ == "PCI"@,
        SENSOR_NAMES@[4]@ == "Fan"@,
        SENSOR_NAMES@[5]@ == "Battery"@,
        SENSOR_NAMES@[6]@ == "Slot"@,
        SENSOR_NAMES@[7]@ == "Bus"@,
        SENSOR_NAMES@[8]@ == "Board2"@,
        SENSOR_NAMES@[9]@ == "Battery2"@,
        SENSOR_NAMES@[10]@ == "Board3"@,
        SENSOR_NAMES@[11]@ == "Board4"@,
{
}

/// A sensor of the list: its name, faint and struck through when it is left out,
/// lifted when it is the hottest, dim otherwise; and what it reads, in the color
/// of its band unless it is left out, or a faint dash when it reads nothing.
pub proof fn law_what_a_sensor_says<D: Fn(i8, bool) -> i32, U: Fn(bool) -> String>(
    row: SensorRow,
    s: SettingsView,
    i: int,
    display_temp: D,
    unit_suffix: U,
)
    requires
        0 <= i < 12,
        sensor_row_for(row, s, i, display_temp, unit_suffix),
    ensures
        ({
            let ignored = s.config.ignored_sensors.contains(i as usize);
            let hottest = s.readout.hottest matches Some(h) && h.0 == i;
            &&& row.name@ == SENSOR_NAMES@[i]@
            &&& row.struck == ignored
            &&& ignored ==> row.name_tone == Tone::Faint && row.tone == Tone::Faint
            &&& !ignored && hottest ==> row.name_tone == Tone::Text
            &&& !ignored && !hottest ==> row.name_tone == Tone::Dim
            &&& s.readout.sensors[i] matches Some(temp) ==> shows_temp(
                display_temp,
                unit_suffix,
                temp,
                s.config.fahrenheit,
                row.value@,
            )
            &&& !ignored ==> (s.readout.sensors[i] matches Some(temp) ==> row.tone == Tone::Band(
                temp,
            ))
            &&& s.readout.sensors[i] is None ==> row.value@ == "--"@ && row.tone == Tone::Faint
        }),
{
}

/// The headline: what the hottest sensor reads, in the color of its band, and
/// which one it is; or that there is no reading yet.
pub proof fn law_what_the_headline_says<D: Fn(i8, bool) -> i32, U: Fn(bool) -> String>(
    headline: Headline,
    hottest: Option<(usize, i8)>,
    fahrenheit: bool,
    display_temp: D,
    unit_suffix: U,
)
    requires
        headline_for(headline, hottest, fahrenheit, display_temp, unit_suffix),
    ensures
        hottest matches Some(h) ==> {
            &&& shows_temp(display_temp, unit_suffix, h.1, fahrenheit, headline.text@)
            &&& headline.tone == Tone::Band(h.1)
            &&& headline.caption_tone == Tone::Dim
            &&& h.0 < 12 ==> headline.caption@ == "hottest sensor \u{00b7} "@
                + SENSOR_NAMES@[h.0 as int]@
            &&& h.0 >= 12 ==> headline.caption@ == "hottest sensor \u{00b7} "@ + "sensor"@
        },
        hottest is None ==> {
            &&& headline.text@ == "--\u{00b0}"@
            &&& headline.caption@ == "waiting for a sensor reading"@
            &&& headline.tone == Tone::Faint
            &&& headline.caption_tone == Tone::Faint
        },
{
}

/// A fault: its words, or the ones for trouble that has none; in the accent only
/// when the fan could not be handed back; and the way out, where the single-fan
/// one comes before the one for the controller mode.
pub proof fn law_what_a_fault_says(
    panel: FaultPanel,
    readout: ReadoutView,
    handback_failed: u8,
    words: StatusWords,
)
    requires
        fault_panel_for(panel, readout, handback_failed, words),
    ensures
        words.status matches Some(w) ==> panel.headline@ == w.0@ && panel.detail@ == w.1@,
        words.status is None ==> panel.headline@ == "Controller unavailable"@ && panel.detail@
            == "Readings return when it responds."@,
        readout.status == handback_failed ==> panel.tone == Tone::AccentBright,
        readout.status != handback_failed ==> panel.tone == Tone::Dim,
        readout.single_fan_hint ==> panel.way_out is Some && panel.way_out->0@
            == words.single_fan@,
        !readout.single_fan_hint ==> panel.way_out is Some == words.layout is Some,
        !readout.single_fan_hint && words.layout is Some ==> panel.way_out->0@
            == words.layout->0@,
{
}

/// The readings column: the fault alone while there is one; otherwise the
/// headline, the rows and all twelve sensors.
pub proof fn law_what_the_readings_column_shows<D: Fn(i8, bool) -> i32, U: Fn(bool) -> String>(
    panel: ReadoutPanel,
    s: SettingsView,
    words: StatusWords,
    display_temp: D,
    unit_suffix: U,
    i: int,
)
    requires
        readout_panel_for(panel, s, words, display_temp, unit_suffix),
    ensures
        panel is Fault <==> s.readout.fault,
        panel matches ReadoutPanel::Fault(fault) ==> fault_panel_for(
            fault,
            s.readout,
            s.protocol.status_handback_failed,
            words,
        ),
        panel matches ReadoutPanel::Live(live) ==> {
            &&& headline_for(
                live.headline,
                s.readout.hottest,
                s.config.fahrenheit,
                display_temp,
                unit_suffix,
            )
            &&& row_views(live.rows@) == reading_rows(s)
            &&& live.sensors@.len() == 12
            &&& 0 <= i < 12 ==> sensor_row_for(live.sensors@[i], s, i, display_temp, unit_suffix)
        },
{
}

/// What a mode is called.
pub proof fn law_what_modes_are_called(protocol: Protocol, mode: u8)
    ensures
        mode == protocol.mode_smart ==> protocol.mode_words(mode) == "Smart"@,
        mode == protocol.mode_manual && mode != protocol.mode_smart ==> protocol.mode_words(mode)
            == "Manual"@,
        mode != protocol.mode_smart && mode != protocol.mode_manual ==> protocol.mode_words(mode)
            == "BIOS"@,
{
}

// ----------------------------------------------------------------- the looks

/// A grid line: the levels up to seven by number, faint, the lowest one strong;
/// and what is above them as the firmware's, strong and dim.
pub proof fn law_what_a_grid_line_says(line: GridLine, slot: int)
    requires
        grid_line_for(line, slot),
    ensures
        line.slot == slot,
        line.bios <==> slot > 7,
        line.strong <==> slot == 0 || slot > 7,
        slot > 7 ==> line.caption@ == "BIOS"@ && line.tone == Tone::Dim,
        slot <= 7 ==> line.caption@ == decimal(slot) && line.tone == Tone::Faint,
{
}

/// The look of every role of text.
pub proof fn law_the_look_of_text(role: TextRole)
    ensures
        ({
            let look = style_of(role);
            &&& look.display_face <==> role == TextRole::Title || role == TextRole::Big
            &&& look.semi_bold <==> !(role == TextRole::Body || role == TextRole::Caption || role
                == TextRole::Axis || role == TextRole::AxisLevel || role == TextRole::Hint)
            &&& look.middle <==> !(role == TextRole::Title || role == TextRole::Big || role
                == TextRole::Caption || role == TextRole::Axis || role == TextRole::Hint)
            &&& look.elide <==> role == TextRole::Hint || role == TextRole::Picker
            &&& look.align == Align::Center <==> role == TextRole::Axis || role
                == TextRole::Button
            &&& look.align == Align::Trailing <==> role == TextRole::Value || role
                == TextRole::AxisLevel || role == TextRole::Picker
            &&& look.size == 34 <==> role == TextRole::Big
            &&& look.size == 20 <==> role == TextRole::Title
            &&& look.size == 10 <==> role == TextRole::Section
            &&& look.size == 12 <==> role == TextRole::Body || role == TextRole::Value || role
                == TextRole::Button || role == TextRole::Picker
            &&& look.size == 11 <==> role == TextRole::Caption || role == TextRole::Axis || role
                == TextRole::AxisLevel || role == TextRole::Chip || role == TextRole::Hint
        }),
{
}

} // verus!
