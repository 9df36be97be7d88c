//! What the panels of the window say, and in which tone.

use crate::config::{list_holds, ConfigView, CurvePoint};
use crate::knob::{answers_temps, shows_temp, KNOBS};
use crate::point::POINT_KNOBS;
use crate::readout::{
    level_held, ReadoutView, FAN_BIOS, FAN_DISENGAGED, FAN_LEVEL_MAX, SENSOR_COUNT, SENSOR_NAMES,
};
use crate::settings::{Hover, Settings, SettingsView};
use crate::text::{decimal, decimal_string, hex_byte, hex_byte_string, joined};
use vstd::prelude::*;

verus! {

/// The tone something is drawn in.
#[derive(Debug, Clone, Copy, PartialEq, Eq, Structural)]
pub enum Tone {
    Text,
    Dim,
    Faint,
    /// For what is prominent.
    Accent,
    /// For what calls for attention.
    AccentBright,
    /// The same, as a soft edge.
    Glow,
    /// For a value that answers a click.
    Yellow,
    Surface,
    Border,
    /// The color of the thermal band of this temperature, in Celsius.
    Band(i8),
}

/// The line under the heading.
pub struct Heading {
    pub text: String,
    pub tone: Tone,
    /// A dot in front of it, for changes that are not saved.
    pub dot: bool,
}

/// The buttons under the graph.
pub struct Actions {
    pub fill: Tone,
    pub edge: Tone,
    pub ink: Tone,
    /// Discard stands beside Save.
    pub discard: bool,
    pub caption: &'static str,
}

/// The profile picker.
pub struct Picker {
    pub name: String,
    pub edge: Tone,
    /// Brightened, because the pointer is on it.
    pub wash: bool,
}

/// One line of the grid, for one fan level.
pub struct GridLine {
    pub slot: i32,
    /// The line where the firmware takes over.
    pub bios: bool,
    /// Drawn stronger than the others.
    pub strong: bool,
    pub caption: String,
    pub tone: Tone,
}

/// A label and a value.
pub struct Row {
    pub label: &'static str,
    pub value: String,
    pub tone: Tone,
    /// Lit up, because the pointer is on it.
    pub lit: bool,
    pub role: RowRole,
}

/// What a click on a row does.
#[derive(Debug, Clone, Copy, PartialEq, Eq, Structural)]
pub enum RowRole {
    /// Nothing: it is a reading.
    Reading,
    Mode,
    Profile,
    Level,
    /// Changes the setting at this position.
    Setting(usize),
    /// Changes this about the chosen point.
    Point(usize),
}

/// A row as a mathematical value.
pub struct RowView {
    pub label: Seq<char>,
    pub value: Seq<char>,
    pub tone: Tone,
    pub lit: bool,
    pub role: RowRole,
}

impl View for Row {
    type V = RowView;

    open spec fn view(&self) -> RowView {
        RowView {
            label: self.label@,
            value: self.value@,
            tone: self.tone,
            lit: self.lit,
            role: self.role,
        }
    }
}

/// One sensor of the list.
pub struct SensorRow {
    pub name: &'static str,
    pub name_tone: Tone,
    pub value: String,
    pub tone: Tone,
    /// Struck through, because it is left out of the decision.
    pub struck: bool,
}

/// The reading that drives the curve, given prominence.
pub struct Headline {
    pub text: String,
    pub tone: Tone,
    pub caption: String,
    pub caption_tone: Tone,
}

/// What is said instead of readings while there are none.
pub struct FaultPanel {
    pub headline: &'static str,
    pub tone: Tone,
    pub detail: &'static str,
    /// Something the user can do about it.
    pub way_out: Option<&'static str>,
}

/// The readings.
pub struct LivePanel {
    pub headline: Headline,
    pub rows: Vec<Row>,
    pub sensors: Vec<SensorRow>,
}

/// The readings column.
pub enum ReadoutPanel {
    Fault(FaultPanel),
    Live(LivePanel),
}

/// The words that the engine's state comes with.
#[derive(Debug, Clone, Copy)]
pub struct StatusWords {
    /// A headline and a detail for the trouble in the report, if there are any.
    pub status: Option<(&'static str, &'static str)>,
    /// What to try on a machine that looks like it has one fan.
    pub single_fan: &'static str,
    /// What to try for the controller mode in the report, if anything.
    pub layout: Option<&'static str>,
}

/// The chosen point, in words.
pub struct PointPanel {
    pub sentence: String,
    pub rows: Vec<Row>,
}

/// The roles that text plays in the window, one format each.
#[derive(Debug, Clone, Copy, PartialEq, Eq, Structural)]
pub enum TextRole {
    Title,
    /// The hottest temperature, which is the number people open the window for.
    Big,
    Body,
    Value,
    Caption,
    Axis,
    AxisLevel,
    Section,
    Chip,
    Button,
    Hint,
    Picker,
}

/// Every role, in order.
pub const TEXT_ROLES: [TextRole; 12] = [
    TextRole::Title,
    TextRole::Big,
    TextRole::Body,
    TextRole::Value,
    TextRole::Caption,
    TextRole::Axis,
    TextRole::AxisLevel,
    TextRole::Section,
    TextRole::Chip,
    TextRole::Button,
    TextRole::Hint,
    TextRole::Picker,
];

/// Where a line of text stands between the sides of its box.
#[derive(Debug, Clone, Copy, PartialEq, Eq, Structural)]
pub enum Align {
    Leading,
    Center,
    Trailing,
}

/// The look of a role.
#[derive(Debug, Clone, Copy, PartialEq, Eq, Structural)]
pub struct TextStyle {
    /// The face drawn for headlines; otherwise the one drawn for small sizes.
    pub display_face: bool,
    pub semi_bold: bool,
    /// In device-independent pixels.
    pub size: u32,
    pub align: Align,
    /// In the middle of its box from top to bottom; otherwise at the top.
    pub middle: bool,
    /// One line that loses its tail instead of running under its neighbor. Only
    /// for text that shares its row with something it must not reach, and never
    /// for a number, where the tail is what counts.
    pub elide: bool,
}

/// The look of a role: the large sizes in the headline face, values a touch
/// heavier than their labels and flush with the right, and what labels a button
/// centered both ways.
pub open spec fn style_of(role: TextRole) -> TextStyle {
    TextStyle {
        display_face: role == TextRole::Title || role == TextRole::Big,
        semi_bold: role == TextRole::Title || role == TextRole::Big || role == TextRole::Value
            || role == TextRole::Section || role == TextRole::Chip || role == TextRole::Button
            || role == TextRole::Picker,
        size: match role {
            TextRole::Title => 20,
            TextRole::Big => 34,
            TextRole::Body | TextRole::Value | TextRole::Button | TextRole::Picker => 12,
            TextRole::Section => 10,
            _ => 11,
        },
        align: match role {
            TextRole::Value | TextRole::AxisLevel | TextRole::Picker => Align::Trailing,
            TextRole::Axis | TextRole::Button => Align::Center,
            _ => Align::Leading,
        },
        middle: role == TextRole::Body || role == TextRole::Value || role == TextRole::AxisLevel
            || role == TextRole::Section || role == TextRole::Chip || role == TextRole::Button
            || role == TextRole::Picker,
        elide: role == TextRole::Hint || role == TextRole::Picker,
    }
}

fn style(
    display_face: bool,
    semi_bold: bool,
    size: u32,
    align: Align,
    middle: bool,
    elide: bool,
) -> (r: TextStyle)
    ensures
        r == (TextStyle { display_face, semi_bold, size, align, middle, elide }),
{
    TextStyle { display_face, semi_bold, size, align, middle, elide }
}

/// The look of a role.
pub fn text_style(role: TextRole) -> (r: TextStyle)
    ensures
        r == style_of(role),
{
    match role {
        TextRole::Title => style(true, true, 20, Align::Leading, false, false),
        TextRole::Big => style(true, true, 34, Align::Leading, false, false),
        TextRole::Body => style(false, false, 12, Align::Leading, true, false),
        TextRole::Value => style(false, true, 12, Align::Trailing, true, false),
        TextRole::Caption => style(false, false, 11, Align::Leading, false, false),
        TextRole::Axis => style(false, false, 11, Align::Center, false, false),
        TextRole::AxisLevel => style(false, false, 11, Align::Trailing, true, false),
        TextRole::Section => style(false, true, 10, Align::Leading, true, false),
        TextRole::Chip => style(false, true, 11, Align::Leading, true, false),
        TextRole::Button => style(false, true, 12, Align::Center, true, false),
        TextRole::Hint => style(false, false, 11, Align::Leading, false, true),
        TextRole::Picker => style(false, true, 12, Align::Trailing, true, true),
    }
}

/// What an empty value is shown as.
pub open spec fn shown_value(value: Seq<char>) -> Seq<char> {
    if value.len() == 0 {
        "--"@
    } else {
        value
    }
}

/// The tone a value is shown in.
pub open spec fn shown_tone(value: Seq<char>, tone: Tone) -> Tone {
    if value.len() == 0 {
        Tone::Faint
    } else {
        tone
    }
}

/// A row. An empty value keeps a dash, so that the column survives a report
/// that has not come in yet.
pub open spec fn row_view(
    label: Seq<char>,
    value: Seq<char>,
    tone: Tone,
    lit: bool,
    role: RowRole,
) -> RowView {
    RowView { label, value: shown_value(value), tone: shown_tone(value, tone), lit, role }
}

/// Rows as mathematical values.
pub open spec fn row_views(rows: Seq<Row>) -> Seq<RowView> {
    Seq::new(rows.len(), |i: int| rows[i]@)
}

fn make_row(label: &'static str, value: String, tone: Tone, lit: bool, role: RowRole) -> (r: Row)
    ensures
        r@ == row_view(label@, value@, tone, lit, role),
{
    if value.as_str().is_empty() {
        Row { label, value: "--".to_owned(), tone: Tone::Faint, lit, role }
    } else {
        Row { label, value, tone, lit, role }
    }
}

/// The title of the window.
pub fn window_title(version: &str) -> (r: String)
    ensures
        r@ == "Yamato "@ + version@,
{
    joined("Yamato ", version)
}

/// The line under the heading: what is wrong with the curve on screen, or that
/// it is not saved, or how to change it.
pub fn heading(problem: Option<String>, dirty: bool) -> (r: Heading)
    ensures
        match problem {
            Some(text) => r.text@ == text@ && r.tone == Tone::AccentBright && !r.dot,
            None => if dirty {
                r.text@ == "Unsaved changes"@ && r.tone == Tone::Dim && r.dot
            } else {
                &&& r.text@ == "Drag to move, double-click to add, right-click to remove"@
                &&& r.tone == Tone::Faint
                &&& !r.dot
            },
        },
{
    match problem {
        Some(text) => Heading { text, tone: Tone::AccentBright, dot: false },
        None => if dirty {
            Heading { text: "Unsaved changes".to_owned(), tone: Tone::Dim, dot: true }
        } else {
            Heading {
                text: "Drag to move, double-click to add, right-click to remove".to_owned(),
                tone: Tone::Faint,
                dot: false,
            }
        },
    }
}

/// What an empty graph says instead of looking like it was not drawn: a notice
/// and what to do about it.
pub fn curve_notice(points: &Vec<CurvePoint>) -> (r: Option<(&'static str, &'static str)>)
    ensures
        r is Some == (points@.len() == 0),
        r matches Some(words) ==> words.0@ == "No curve points"@ && words.1@
            == "Double-click the graph to add one"@,
{
    if points.is_empty() {
        Some(("No curve points", "Double-click the graph to add one"))
    } else {
        None
    }
}

/// The explanation that closes the settings column: what the numbers of the
/// chosen point mean, or how to choose one.
pub fn point_notice(chosen: Option<CurvePoint>) -> (r: &'static str)
    ensures
        r@ == match chosen {
            Some(_) =>
                "Bigger numbers mean the fan waits longer before changing speed, so it changes less often. The shaded bands on the graph are the waiting."@,
            None =>
                "Click a point on the graph to change how quickly the fan follows it."@,
        },
{
    match chosen {
        Some(_) =>
            "Bigger numbers mean the fan waits longer before changing speed, so it changes less often. The shaded bands on the graph are the waiting.",
        None => "Click a point on the graph to change how quickly the fan follows it.",
    }
}

/// The buttons under the graph. Save is prominent only when there is something
/// to save, and Discard is there only when there is something to discard.
pub fn actions(dirty: bool) -> (r: Actions)
    ensures
        dirty ==> r.fill == Tone::Accent && r.edge == Tone::Glow && r.ink == Tone::Text,
        !dirty ==> r.fill == Tone::Surface && r.edge == Tone::Border && r.ink == Tone::Faint,
        r.discard == dirty,
        r.caption@ == if dirty {
            "Ctrl+S saves, Escape discards"@
        } else {
            "Ctrl+S or Enter saves"@
        },
{
    if dirty {
        Actions {
            fill: Tone::Accent,
            edge: Tone::Glow,
            ink: Tone::Text,
            discard: true,
            caption: "Ctrl+S saves, Escape discards",
        }
    } else {
        Actions {
            fill: Tone::Surface,
            edge: Tone::Border,
            ink: Tone::Faint,
            discard: false,
            caption: "Ctrl+S or Enter saves",
        }
    }
}

/// The caption of a grid line.
pub open spec fn grid_caption(slot: int) -> Seq<char> {
    if slot > FAN_LEVEL_MAX {
        "BIOS"@
    } else {
        decimal(slot)
    }
}

/// A grid line says what it should for its level.
pub open spec fn grid_line_for(line: GridLine, slot: int) -> bool {
    &&& line.slot == slot
    &&& line.bios == (slot > FAN_LEVEL_MAX)
    &&& line.strong == (slot > FAN_LEVEL_MAX || slot == 0)
    &&& line.caption@ == grid_caption(slot)
    &&& line.tone == if slot > FAN_LEVEL_MAX {
        Tone::Dim
    } else {
        Tone::Faint
    }
}

/// The grid line of one fan level. The baseline is stronger because the eye
/// wants a floor, and so is the line where the firmware takes over.
pub fn grid_line(slot: i32) -> (r: GridLine)
    ensures
        grid_line_for(r, slot as int),
{
    let bios = slot > FAN_LEVEL_MAX as i32;
    GridLine {
        slot,
        bios,
        strong: bios || slot == 0,
        caption: if bios {
            "BIOS".to_owned()
        } else {
            decimal_string(slot as i64)
        },
        tone: if bios {
            Tone::Dim
        } else {
            Tone::Faint
        },
    }
}

/// The grid lines from level zero to `top`.
pub fn grid_lines(top: i32) -> (r: Vec<GridLine>)
    ensures
        r@.len() == if top < 0 {
            0
        } else {
            top + 1
        },
        forall|i: int| 0 <= i < r@.len() ==> grid_line_for(#[trigger] r@[i], i),
{
    let mut lines: Vec<GridLine> = Vec::new();
    let mut slot: i64 = 0;
    while slot <= top as i64
        invariant
            0 <= slot,
            slot <= top + 1 || slot == 0,
            lines@.len() == slot,
            forall|i: int| 0 <= i < lines@.len() ==> grid_line_for(#[trigger] lines@[i], i),
        decreases top + 1 - slot,
    {
        lines.push(grid_line(slot as i32));
        slot = slot + 1;
    }
    lines
}

/// The control register in words.
pub open spec fn ctrl_words(fan_ctrl: u8) -> Seq<char> {
    if fan_ctrl == FAN_BIOS {
        "0x80 (BIOS)"@
    } else if fan_ctrl == FAN_DISENGAGED {
        "0x40 (Disengaged)"@
    } else if fan_ctrl <= FAN_LEVEL_MAX {
        "0x"@ + hex_byte(fan_ctrl) + " (Level "@ + decimal(fan_ctrl as int) + ")"@
    } else {
        "0x"@ + hex_byte(fan_ctrl)
    }
}

/// The control register in words.
pub fn ctrl_string(fan_ctrl: u8) -> (r: String)
    ensures
        r@ == ctrl_words(fan_ctrl),
{
    if fan_ctrl == FAN_BIOS {
        "0x80 (BIOS)".to_owned()
    } else if fan_ctrl == FAN_DISENGAGED {
        "0x40 (Disengaged)".to_owned()
    } else {
        let digits = hex_byte_string(fan_ctrl);
        let mut words = joined("0x", digits.as_str());
        if fan_ctrl <= FAN_LEVEL_MAX {
            words.append(" (Level ");
            let level = decimal_string(fan_ctrl as i64);
            words.append(level.as_str());
            words.append(")");
        }
        words
    }
}

/// The fan speeds in words: one, unless the second fan turns too.
pub open spec fn fan_words(first: u16, second: u16) -> Seq<char> {
    if second > 0 {
        decimal(first as int) + " / "@ + decimal(second as int) + " rpm"@
    } else {
        decimal(first as int) + " rpm"@
    }
}

/// The fan speeds in words.
pub fn fan_string(first: u16, second: u16) -> (r: String)
    ensures
        r@ == fan_words(first, second),
{
    let mut words = decimal_string(first as i64);
    if second > 0 {
        words.append(" / ");
        let other = decimal_string(second as i64);
        words.append(other.as_str());
    }
    words.append(" rpm");
    words
}

/// The standing hint under the settings rows.
pub open spec fn standing_hint() -> Seq<char> {
    "Click a value to change it. Right-click a sensor to leave it out of the decision."@
}

/// The hint under the settings rows, given up to whatever the pointer is on
/// that has something to say.
pub open spec fn hint_words(hover: Hover) -> Seq<char> {
    if hover.mode {
        "Click Mode for the firmware, your curve, or a level you hold yourself."@
    } else if hover.level {
        "Click Level to step it, 1 to 7. A held level turns the firmware's own thermal management off."@
    } else if hover.profile {
        "Click Profile to switch curves, or to add, rename or delete one."@
    } else {
        match hover.knob {
            Some(i) => if i < KNOBS@.len() {
                KNOBS@[i as int].description()
            } else {
                standing_hint()
            },
            None => standing_hint(),
        }
    }
}

/// The rows of the readings column, without the temperatures. The Level row is
/// there only while a level is held.
pub open spec fn reading_rows(s: SettingsView) -> Seq<RowView> {
    let r = s.readout;
    let always = seq![
        row_view("Mode"@, r.mode, Tone::Yellow, s.hover.mode, RowRole::Mode),
        row_view("Profile"@, r.profile, Tone::Yellow, s.hover.profile, RowRole::Profile),
        row_view("EC Ctrl"@, ctrl_words(r.fan_ctrl), Tone::Text, false, RowRole::Reading),
        row_view(
            "Fan"@,
            fan_words(r.fan_rpm[0], r.fan_rpm[1]),
            Tone::Text,
            false,
            RowRole::Reading,
        ),
    ];
    if r.mode_raw == s.protocol.mode_manual {
        always.push(
            row_view(
                "Level"@,
                decimal(level_held(r.fan_ctrl) as int),
                Tone::Yellow,
                s.hover.level,
                RowRole::Level,
            ),
        )
    } else {
        always
    }
}

/// The name of a sensor, or `otherwise` for one that has none.
pub open spec fn sensor_words(index: usize, otherwise: Seq<char>) -> Seq<char> {
    if index < SENSOR_COUNT {
        SENSOR_NAMES@[index as int]@
    } else {
        otherwise
    }
}

/// The headline is the reading that drives the curve, or says that there is
/// none yet.
pub open spec fn headline_for<D: Fn(i8, bool) -> i32, U: Fn(bool) -> String>(
    headline: Headline,
    hottest: Option<(usize, i8)>,
    fahrenheit: bool,
    display_temp: D,
    unit_suffix: U,
) -> bool {
    match hottest {
        Some(reading) => {
            &&& shows_temp(display_temp, unit_suffix, reading.1, fahrenheit, headline.text@)
            &&& headline.tone == Tone::Band(reading.1)
            &&& headline.caption@ == "hottest sensor \u{00b7} "@ + sensor_words(
                reading.0,
                "sensor"@,
            )
            &&& headline.caption_tone == Tone::Dim
        },
        None => {
            &&& headline.text@ == "--\u{00b0}"@
            &&& headline.tone == Tone::Faint
            &&& headline.caption@ == "waiting for a sensor reading"@
            &&& headline.caption_tone == Tone::Faint
        },
    }
}

/// A row of the sensor list says what it should for its sensor. One that is
/// left out of the decision is still shown, as what it is; one that is not
/// fitted shows a dash.
pub open spec fn sensor_row_for<D: Fn(i8, bool) -> i32, U: Fn(bool) -> String>(
    row: SensorRow,
    s: SettingsView,
    i: int,
    display_temp: D,
    unit_suffix: U,
) -> bool {
    let ignored = s.config.ignored_sensors.contains(i as usize);
    let drives = match s.readout.hottest {
        Some(reading) => reading.0 == i,
        None => false,
    };
    &&& row.name@ == sensor_words(i as usize, "--"@)
    &&& row.name_tone == if ignored {
        Tone::Faint
    } else if drives {
        Tone::Text
    } else {
        Tone::Dim
    }
    &&& row.struck == ignored
    &&& match s.readout.sensors[i] {
        Some(temp) => {
            &&& shows_temp(display_temp, unit_suffix, temp, s.config.fahrenheit, row.value@)
            &&& row.tone == if ignored {
                Tone::Faint
            } else {
                Tone::Band(temp)
            }
        },
        None => row.value@ == "--"@ && row.tone == Tone::Faint,
    }
}

/// The fault panel says which trouble it is and what can be done about it. Only
/// a fan that may be held with the firmware's own management switched off is
/// not calm.
pub open spec fn fault_panel_for(
    panel: FaultPanel,
    readout: ReadoutView,
    handback_failed: u8,
    words: StatusWords,
) -> bool {
    &&& match words.status {
        Some(status) => panel.headline@ == status.0@ && panel.detail@ == status.1@,
        None => {
            &&& panel.headline@ == "Controller unavailable"@
            &&& panel.detail@ == "Readings return when it responds."@
        },
    }
    &&& panel.tone == if readout.status == handback_failed {
        Tone::AccentBright
    } else {
        Tone::Dim
    }
    &&& if readout.single_fan_hint {
        panel.way_out is Some && panel.way_out->0@ == words.single_fan@
    } else {
        match words.layout {
            Some(layout) => panel.way_out is Some && panel.way_out->0@ == layout@,
            None => panel.way_out is None,
        }
    }
}

/// The readings column says what it should.
pub open spec fn readout_panel_for<D: Fn(i8, bool) -> i32, U: Fn(bool) -> String>(
    panel: ReadoutPanel,
    s: SettingsView,
    words: StatusWords,
    display_temp: D,
    unit_suffix: U,
) -> bool {
    if s.readout.fault {
        panel matches ReadoutPanel::Fault(fault) && fault_panel_for(
            fault,
            s.readout,
            s.protocol.status_handback_failed,
            words,
        )
    } else {
        panel matches ReadoutPanel::Live(live) && {
            &&& headline_for(
                live.headline,
                s.readout.hottest,
                s.config.fahrenheit,
                display_temp,
                unit_suffix,
            )
            &&& row_views(live.rows@) == reading_rows(s)
            &&& live.sensors@.len() == SENSOR_COUNT
            &&& forall|i: int|
                0 <= i < SENSOR_COUNT ==> sensor_row_for(
                    #[trigger] live.sensors@[i],
                    s,
                    i,
                    display_temp,
                    unit_suffix,
                )
        }
    }
}

/// A settings row says what it should for its setting.
pub open spec fn tuning_row_for<D: Fn(i8, bool) -> i32, U: Fn(bool) -> String>(
    row: RowView,
    config: ConfigView,
    i: int,
    display_temp: D,
    unit_suffix: U,
) -> bool {
    exists|value: Seq<char>|
        {
            &&& #[trigger] KNOBS@[i].reads(config, display_temp, unit_suffix, value)
            &&& row == row_view(
                KNOBS@[i].label_words(),
                value,
                Tone::Yellow,
                false,
                RowRole::Setting(i as usize),
            )
        }
}

/// What the chosen point does at its temperature.
pub open spec fn point_does(point: CurvePoint, bios: bool) -> Seq<char> {
    if bios {
        "hands over to the BIOS"@
    } else {
        "runs the fan at "@ + decimal(point.level as int)
    }
}

/// The rows for the chosen point.
pub open spec fn point_row_views(point: CurvePoint) -> Seq<RowView> {
    Seq::new(
        POINT_KNOBS@.len(),
        |i: int|
            row_view(
                POINT_KNOBS@[i].label_words(),
                POINT_KNOBS@[i].value_words(point),
                Tone::Yellow,
                false,
                RowRole::Point(i as usize),
            ),
    )
}

fn sensor_name(index: usize, otherwise: &'static str) -> (r: &'static str)
    ensures
        r@ == sensor_words(index, otherwise@),
{
    if index < SENSOR_COUNT {
        SENSOR_NAMES[index]
    } else {
        otherwise
    }
}

impl Settings {
    /// The profile picker above the graph.
    pub fn picker(&self) -> (r: Picker)
        ensures
            r.name@ == self@.config.active_profile,
            r.edge == if self@.hover.picker {
                Tone::Glow
            } else {
                Tone::Border
            },
            r.wash == self@.hover.picker,
    {
        Picker {
            name: self.live_profile(),
            edge: if self.hover.picker {
                Tone::Glow
            } else {
                Tone::Border
            },
            wash: self.hover.picker,
        }
    }

    /// The label on the marker for the temperature the machine is at.
    pub fn live_label<D: Fn(i8, bool) -> i32, U: Fn(bool) -> String>(
        &self,
        temp: i8,
        display_temp: &D,
        unit_suffix: &U,
    ) -> (r: String)
        requires
            answers_temps(*display_temp, *unit_suffix),
        ensures
            exists|words: Seq<char>| #[trigger]
                shows_temp(
                    *display_temp,
                    *unit_suffix,
                    temp,
                    self@.config.fahrenheit,
                    words,
                ) && r@ == "now "@ + words,
    {
        let words = self.temp_text(temp, display_temp, unit_suffix);
        joined("now ", words.as_str())
    }

    /// The hint under the settings rows.
    pub fn hint(&self) -> (r: &'static str)
        ensures
            r@ == hint_words(self@.hover),
    {
        if self.hover.mode {
            "Click Mode for the firmware, your curve, or a level you hold yourself."
        } else if self.hover.level {
            "Click Level to step it, 1 to 7. A held level turns the firmware's own thermal management off."
        } else if self.hover.profile {
            "Click Profile to switch curves, or to add, rename or delete one."
        } else {
            let standing = "Click a value to change it. Right-click a sensor to leave it out of the decision.";
            match self.hover.knob {
                Some(i) => if i < KNOBS.len() {
                    KNOBS[i].describe()
                } else {
                    standing
                },
                None => standing,
            }
        }
    }

    /// The settings rows, in order.
    pub fn tuning_rows<D: Fn(i8, bool) -> i32, U: Fn(bool) -> String>(
        &self,
        display_temp: &D,
        unit_suffix: &U,
    ) -> (r: Vec<Row>)
        requires
            answers_temps(*display_temp, *unit_suffix),
        ensures
            r@.len() == KNOBS@.len(),
            forall|i: int|
                0 <= i < r@.len() ==> tuning_row_for(
                    #[trigger] r@[i]@,
                    self@.config,
                    i,
                    *display_temp,
                    *unit_suffix,
                ),
    {
        let mut rows: Vec<Row> = Vec::new();
        let mut i: usize = 0;
        while i < KNOBS.len()
            invariant
                i <= KNOBS@.len(),
                rows@.len() == i,
                answers_temps(*display_temp, *unit_suffix),
                forall|j: int|
                    0 <= j < i ==> tuning_row_for(
                        #[trigger] rows@[j]@,
                        self@.config,
                        j,
                        *display_temp,
                        *unit_suffix,
                    ),
            decreases KNOBS@.len() - i,
        {
            let knob = KNOBS[i];
            let value = knob.value(&self.config, display_temp, unit_suffix);
            let row = make_row(knob.label(), value, Tone::Yellow, false, RowRole::Setting(i));
            rows.push(row);
            i = i + 1;
        }
        rows
    }

    /// The chosen point in words, with the rows that change it. `bios` says
    /// that the point hands over to the firmware.
    pub fn point_panel<D: Fn(i8, bool) -> i32, U: Fn(bool) -> String>(
        &self,
        point: &CurvePoint,
        bios: bool,
        display_temp: &D,
        unit_suffix: &U,
    ) -> (r: PointPanel)
        requires
            answers_temps(*display_temp, *unit_suffix),
        ensures
            exists|words: Seq<char>| #[trigger]
                shows_temp(
                    *display_temp,
                    *unit_suffix,
                    point.temp,
                    self@.config.fahrenheit,
                    words,
                ) && r.sentence@ == "At "@ + words + ", "@ + point_does(*point, bios) + "."@,
            row_views(r.rows@) == point_row_views(*point),
    {
        let words = self.temp_text(point.temp, display_temp, unit_suffix);
        let mut sentence = joined("At ", words.as_str());
        sentence.append(", ");
        if bios {
            sentence.append("hands over to the BIOS");
        } else {
            let level = decimal_string(point.level as i64);
            let does = joined("runs the fan at ", level.as_str());
            sentence.append(does.as_str());
        }
        sentence.append(".");
        let mut rows: Vec<Row> = Vec::new();
        let mut i: usize = 0;
        while i < POINT_KNOBS.len()
            invariant
                i <= POINT_KNOBS@.len(),
                rows@.len() == i,
                forall|j: int| 0 <= j < i ==> #[trigger] rows@[j]@ == point_row_views(*point)[j],
            decreases POINT_KNOBS@.len() - i,
        {
            let knob = POINT_KNOBS[i];
            rows.push(
                make_row(
                    knob.label(),
                    knob.value(point),
                    Tone::Yellow,
                    false,
                    RowRole::Point(i),
                ),
            );
            i = i + 1;
        }
        assert(row_views(rows@) == point_row_views(*point));
        PointPanel { sentence, rows }
    }

    fn fault_panel(&self, words: &StatusWords) -> (r: FaultPanel)
        ensures
            fault_panel_for(
                r,
                self@.readout,
                self@.protocol.status_handback_failed,
                *words,
            ),
    {
        let (headline, detail): (&'static str, &'static str) = match words.status {
            Some((headline, detail)) => (headline, detail),
            None => ("Controller unavailable", "Readings return when it responds."),
        };
        FaultPanel {
            headline,
            tone: if self.readout.status == self.protocol.status_handback_failed {
                Tone::AccentBright
            } else {
                Tone::Dim
            },
            detail,
            way_out: if self.readout.single_fan_hint {
                Some(words.single_fan)
            } else {
                words.layout
            },
        }
    }

    fn headline<D: Fn(i8, bool) -> i32, U: Fn(bool) -> String>(
        &self,
        display_temp: &D,
        unit_suffix: &U,
    ) -> (r: Headline)
        requires
            answers_temps(*display_temp, *unit_suffix),
        ensures
            headline_for(
                r,
                self@.readout.hottest,
                self@.config.fahrenheit,
                *display_temp,
                *unit_suffix,
            ),
    {
        match self.readout.hottest {
            Some((index, temp)) => Headline {
                text: self.temp_text(temp, display_temp, unit_suffix),
                tone: Tone::Band(temp),
                caption: joined("hottest sensor \u{00b7} ", sensor_name(index, "sensor")),
                caption_tone: Tone::Dim,
            },
            None => Headline {
                text: "--\u{00b0}".to_owned(),
                tone: Tone::Faint,
                caption: "waiting for a sensor reading".to_owned(),
                caption_tone: Tone::Faint,
            },
        }
    }

    fn reading_rows(&self) -> (r: Vec<Row>)
        ensures
            row_views(r@) == reading_rows(self@),
    {
        let readout = &self.readout;
        let mut rows: Vec<Row> = Vec::new();
        rows.push(
            make_row(
                "Mode",
                readout.mode.to_owned(),
                Tone::Yellow,
                self.hover.mode,
                RowRole::Mode,
            ),
        );
        rows.push(
            make_row(
                "Profile",
                readout.profile.clone(),
                Tone::Yellow,
                self.hover.profile,
                RowRole::Profile,
            ),
        );
        rows.push(
            make_row(
                "EC Ctrl",
                ctrl_string(readout.fan_ctrl),
                Tone::Text,
                false,
                RowRole::Reading,
            ),
        );
        rows.push(
            make_row(
                "Fan",
                fan_string(readout.fan_rpm[0], readout.fan_rpm[1]),
                Tone::Text,
                false,
                RowRole::Reading,
            ),
        );
        if readout.mode_raw == self.protocol.mode_manual {
            let level = self.held_level();
            rows.push(
                make_row(
                    "Level",
                    decimal_string(level as i64),
                    Tone::Yellow,
                    self.hover.level,
                    RowRole::Level,
                ),
            );
        }
        assert(row_views(rows@) == reading_rows(self@));
        rows
    }

    fn sensor_row<D: Fn(i8, bool) -> i32, U: Fn(bool) -> String>(
        &self,
        i: usize,
        display_temp: &D,
        unit_suffix: &U,
    ) -> (r: SensorRow)
        requires
            i < SENSOR_COUNT,
            answers_temps(*display_temp, *unit_suffix),
        ensures
            sensor_row_for(r, self@, i as int, *display_temp, *unit_suffix),
    {
        let ignored = list_holds(&self.config.ignored_sensors, i);
        let drives = match self.readout.hottest {
            Some((index, _)) => index == i,
            None => false,
        };
        let name_tone = if ignored {
            Tone::Faint
        } else if drives {
            Tone::Text
        } else {
            Tone::Dim
        };
        let (value, tone) = match self.readout.sensors[i] {
            Some(temp) => (
                self.temp_text(temp, display_temp, unit_suffix),
                if ignored {
                    Tone::Faint
                } else {
                    Tone::Band(temp)
                },
            ),
            None => ("--".to_owned(), Tone::Faint),
        };
        SensorRow { name: sensor_name(i, "--"), name_tone, value, tone, struck: ignored }
    }

    /// The readings column: every sensor the controller reports, the fan speed
    /// and the mode, or what is wrong. `words` holds what the engine's state is
    /// called.
    pub fn readout_panel<D: Fn(i8, bool) -> i32, U: Fn(bool) -> String>(
        &self,
        words: &StatusWords,
        display_temp: &D,
        unit_suffix: &U,
    ) -> (r: ReadoutPanel)
        requires
            answers_temps(*display_temp, *unit_suffix),
        ensures
            readout_panel_for(r, self@, *words, *display_temp, *unit_suffix),
    {
        if self.readout.fault {
            return ReadoutPanel::Fault(self.fault_panel(words));
        }
        let headline = self.headline(display_temp, unit_suffix);
        let rows = self.reading_rows();
        let mut sensors: Vec<SensorRow> = Vec::new();
        let mut i: usize = 0;
        while i < SENSOR_COUNT
            invariant
                i <= SENSOR_COUNT,
                sensors@.len() == i,
                answers_temps(*display_temp, *unit_suffix),
                forall|j: int|
                    0 <= j < i ==> sensor_row_for(
                        #[trigger] sensors@[j],
                        self@,
                        j,
                        *display_temp,
                        *unit_suffix,
                    ),
            decreases SENSOR_COUNT - i,
        {
            sensors.push(self.sensor_row(i, display_temp, unit_suffix));
            i = i + 1;
        }
        ReadoutPanel::Live(LivePanel { headline, rows, sensors })
    }
}

} // verus!
