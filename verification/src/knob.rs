//! The settings rows: what each one is called, what it is for, what it reads
//! and what a click moves it on to.

use crate::config::{Config, ConfigView, EcLayout, Limits, StartupMode};
use crate::text::{decimal, decimal_string, joined};
use vstd::prelude::*;

verus! {

/// One setting that can be changed from the window, drawn as a row.
///
/// Each row cycles through a short list of sensible values on a click.
#[derive(Debug, Clone, Copy, PartialEq, Eq, Structural)]
pub enum Knob {
    Poll,
    Watchdog,
    Escape,
    StandbyPoll,
    StartIn,
    Logging,
    ShowWindow,
    SingleFan,
    EcLayout,
}

/// The rows, in the order they are drawn.
///
/// Controller mode is last on purpose: it is an override that the first start
/// answers, and it should not sit among the rows people actually visit.
pub const KNOBS: [Knob; 9] = [
    Knob::Poll,
    Knob::Watchdog,
    Knob::Escape,
    Knob::StandbyPoll,
    Knob::StartIn,
    Knob::Logging,
    Knob::ShowWindow,
    Knob::SingleFan,
    Knob::EcLayout,
];

/// Poll intervals worth offering, in seconds.
pub const POLL_PRESETS: [u32; 8] = [1, 2, 3, 5, 10, 15, 30, 60];

/// Poll intervals worth offering for a machine that is asleep, in seconds.
pub const STANDBY_POLL_PRESETS: [u32; 6] = [5, 10, 15, 30, 60, 120];

/// Watchdogs long enough that a slow pass is not mistaken for a stall.
pub const WATCHDOG_PRESETS: [u32; 5] = [30, 60, 90, 120, 180];

/// Where a held manual level is abandoned, in degrees Celsius.
pub const ESCAPE_PRESETS: [u32; 8] = [60, 65, 70, 75, 78, 80, 85, 90];

/// The first preset from `from` on that is above `current`.
pub open spec fn above_from(presets: Seq<u32>, current: int, from: int) -> Option<u32>
    decreases presets.len() - from,
{
    if from < 0 || from >= presets.len() {
        None
    } else if presets[from] > current {
        Some(presets[from])
    } else {
        above_from(presets, current, from + 1)
    }
}

/// The first preset above `current`, or the first of all when there is none.
pub open spec fn preset_after(presets: Seq<u32>, current: int) -> u32 {
    match above_from(presets, current, 0) {
        Some(preset) => preset,
        None => presets[0],
    }
}

/// `value` brought into the range from `low` to `high`.
pub open spec fn clamped(value: int, low: int, high: int) -> int {
    if value < low {
        low
    } else if value > high {
        high
    } else {
        value
    }
}

/// The next preset above `current`, wrapping round to the first.
///
/// Not the one after whichever matches: a value from a file edited by hand
/// matches nothing in the list, and a click still moves it somewhere sensible.
pub fn next_preset(presets: &[u32], current: u32) -> (r: u32)
    requires
        presets@.len() > 0,
    ensures
        r == preset_after(presets@, current as int),
{
    let mut i: usize = 0;
    while i < presets.len()
        invariant
            i <= presets@.len(),
            above_from(presets@, current as int, 0) == above_from(
                presets@,
                current as int,
                i as int,
            ),
        decreases presets@.len() - i,
    {
        if presets[i] > current {
            return presets[i];
        }
        i = i + 1;
    }
    presets[0]
}

fn clamp_secs(value: u32, low: u32, high: u32) -> (r: u32)
    requires
        low <= high,
    ensures
        r == clamped(value as int, low as int, high as int),
{
    if value < low {
        low
    } else if value > high {
        high
    } else {
        value
    }
}

fn clamp_celsius(value: i8, low: i8, high: i8) -> (r: i8)
    requires
        low <= high,
    ensures
        r == clamped(value as int, low as int, high as int),
{
    if value < low {
        low
    } else if value > high {
        high
    } else {
        value
    }
}

/// A temperature in words: the number in the unit on screen, then the unit.
pub open spec fn temp_words(shown: int, suffix: Seq<char>) -> Seq<char> {
    decimal(shown) + suffix
}

/// `text` is this temperature as the two given functions show it.
pub open spec fn shows_temp<D: Fn(i8, bool) -> i32, U: Fn(bool) -> String>(
    display_temp: D,
    unit_suffix: U,
    celsius: i8,
    fahrenheit: bool,
    text: Seq<char>,
) -> bool {
    exists|shown: i32, suffix: String|
        {
            &&& #[trigger] display_temp.ensures((celsius, fahrenheit), shown)
            &&& #[trigger] unit_suffix.ensures((fahrenheit,), suffix)
            &&& text == temp_words(shown as int, suffix@)
        }
}

/// Both functions can be asked about every temperature and either unit, and
/// answer the same whenever they are asked the same.
pub open spec fn answers_temps<D: Fn(i8, bool) -> i32, U: Fn(bool) -> String>(
    display_temp: D,
    unit_suffix: U,
) -> bool {
    &&& forall|celsius: i8, fahrenheit: bool| #[trigger]
        display_temp.requires((celsius, fahrenheit))
    &&& forall|fahrenheit: bool| #[trigger] unit_suffix.requires((fahrenheit,))
    &&& forall|celsius: i8, fahrenheit: bool, a: i32, b: i32|
        #[trigger] display_temp.ensures((celsius, fahrenheit), a)
            && #[trigger] display_temp.ensures((celsius, fahrenheit), b) ==> a == b
    &&& forall|fahrenheit: bool, a: String, b: String|
        #[trigger] unit_suffix.ensures((fahrenheit,), a) && #[trigger] unit_suffix.ensures(
            (fahrenheit,),
            b,
        ) ==> a@ == b@
}

/// The number in the unit on screen, then the unit.
pub fn temp_words_string(shown: i32, suffix: &str) -> (r: String)
    ensures
        r@ == temp_words(shown as int, suffix@),
{
    let number = decimal_string(shown as i64);
    joined(number.as_str(), suffix)
}

/// A temperature the way the user asked to see it, unit and all.
///
/// Takes Celsius because everything upstream of the screen is in Celsius; only
/// what is drawn changes. `display_temp` turns it into the number to show and
/// `unit_suffix` names the unit.
pub fn temp_string<D: Fn(i8, bool) -> i32, U: Fn(bool) -> String>(
    celsius: i8,
    fahrenheit: bool,
    display_temp: &D,
    unit_suffix: &U,
) -> (r: String)
    requires
        answers_temps(*display_temp, *unit_suffix),
    ensures
        shows_temp(*display_temp, *unit_suffix, celsius, fahrenheit, r@),
{
    let shown = display_temp(celsius, fahrenheit);
    let suffix = unit_suffix(fahrenheit);
    temp_words_string(shown, suffix.as_str())
}

/// A number of seconds in words.
pub open spec fn secs_words(secs: u32) -> Seq<char> {
    decimal(secs as int) + " s"@
}

fn secs_string(secs: u32) -> (r: String)
    ensures
        r@ == secs_words(secs),
{
    let number = decimal_string(secs as i64);
    joined(number.as_str(), " s")
}

impl Knob {
    /// The name on the row.
    pub open spec fn label_words(self) -> Seq<char> {
        match self {
            Knob::Poll => "Poll"@,
            Knob::Watchdog => "Watchdog"@,
            Knob::Escape => "Manual escape"@,
            Knob::StandbyPoll => "Standby poll"@,
            Knob::StartIn => "Start in"@,
            Knob::Logging => "Logging"@,
            Knob::ShowWindow => "Open at start"@,
            Knob::SingleFan => "Fans"@,
            Knob::EcLayout => "Controller mode"@,
        }
    }

    /// The name on the row.
    pub fn label(self) -> (r: &'static str)
        ensures
            r@ == self.label_words(),
    {
        match self {
            Knob::Poll => "Poll",
            Knob::Watchdog => "Watchdog",
            Knob::Escape => "Manual escape",
            Knob::StandbyPoll => "Standby poll",
            Knob::StartIn => "Start in",
            Knob::Logging => "Logging",
            Knob::ShowWindow => "Open at start",
            Knob::SingleFan => "Fans",
            Knob::EcLayout => "Controller mode",
        }
    }

    /// One sentence on what the row is for.
    pub open spec fn description(self) -> Seq<char> {
        match self {
            Knob::Poll => "How often the sensors are read and the fan level decided again."@,
            Knob::Watchdog =>
                "If no decision happens for this long, the fan goes back to the firmware."@,
            Knob::Escape =>
                "A fixed level is held whatever happens. This is the temperature that ends it."@,
            Knob::StandbyPoll =>
                "The poll interval once the machine is asleep. Slower, to save its battery."@,
            Knob::StartIn =>
                "Which mode the engine begins in when it starts. Nothing here moves the fan."@,
            Knob::Logging =>
                "Writes readings and decisions to a CSV in ProgramData, rotated so it cannot grow."@,
            Knob::ShowWindow =>
                "Whether this window opens when Yamato starts, or it goes straight to the tray."@,
            Knob::SingleFan =>
                "Whether this machine has a second fan. Set Single if fan 2 never reports a speed."@,
            Knob::EcLayout =>
                "Advanced. Applies at the next start. The wrong mode stops fan control."@,
        }
    }

    /// One sentence on what the row is for, shown while the pointer is on it.
    pub fn describe(self) -> (r: &'static str)
        ensures
            r@ == self.description(),
    {
        match self {
            Knob::Poll => "How often the sensors are read and the fan level decided again.",
            Knob::Watchdog =>
                "If no decision happens for this long, the fan goes back to the firmware.",
            Knob::Escape =>
                "A fixed level is held whatever happens. This is the temperature that ends it.",
            Knob::StandbyPoll =>
                "The poll interval once the machine is asleep. Slower, to save its battery.",
            Knob::StartIn =>
                "Which mode the engine begins in when it starts. Nothing here moves the fan.",
            Knob::Logging =>
                "Writes readings and decisions to a CSV in ProgramData, rotated so it cannot grow.",
            Knob::ShowWindow =>
                "Whether this window opens when Yamato starts, or it goes straight to the tray.",
            Knob::SingleFan =>
                "Whether this machine has a second fan. Set Single if fan 2 never reports a speed.",
            Knob::EcLayout =>
                "Advanced. Applies at the next start. The wrong mode stops fan control.",
        }
    }

    /// What a row other than the temperature reads.
    pub open spec fn plain_words(self, config: ConfigView) -> Seq<char>
        recommends
            self != Knob::Escape,
    {
        match self {
            Knob::Poll => secs_words(config.poll_secs),
            Knob::Watchdog => secs_words(config.watchdog_secs),
            Knob::Escape => Seq::empty(),
            Knob::StandbyPoll => secs_words(config.standby_poll_secs),
            Knob::StartIn => match config.startup_mode {
                StartupMode::Bios => "BIOS"@,
                StartupMode::Smart => "Smart"@,
            },
            Knob::Logging => if config.log_enabled {
                "On"@
            } else {
                "Off"@
            },
            Knob::ShowWindow => if config.show_window_on_start {
                "Window"@
            } else {
                "Tray only"@
            },
            Knob::SingleFan => if config.single_fan {
                "Single"@
            } else {
                "Dual"@
            },
            Knob::EcLayout => if config.ec_layout == Some(EcLayout::Compat) {
                "Compatibility"@
            } else {
                "Standard"@
            },
        }
    }

    /// `text` is what the row reads.
    pub open spec fn reads<D: Fn(i8, bool) -> i32, U: Fn(bool) -> String>(
        self,
        config: ConfigView,
        display_temp: D,
        unit_suffix: U,
        text: Seq<char>,
    ) -> bool {
        if self == Knob::Escape {
            shows_temp(
                display_temp,
                unit_suffix,
                config.manual_escape_c,
                config.fahrenheit,
                text,
            )
        } else {
            text == self.plain_words(config)
        }
    }

    /// What the row reads right now. The temperature row is in whichever unit
    /// the rest of the window is showing, as `display_temp` and `unit_suffix`
    /// have it.
    pub fn value<D: Fn(i8, bool) -> i32, U: Fn(bool) -> String>(
        self,
        config: &Config,
        display_temp: &D,
        unit_suffix: &U,
    ) -> (r: String)
        requires
            answers_temps(*display_temp, *unit_suffix),
        ensures
            self.reads(config@, *display_temp, *unit_suffix, r@),
    {
        match self {
            Knob::Poll => secs_string(config.poll_secs),
            Knob::Watchdog => secs_string(config.watchdog_secs),
            Knob::Escape => temp_string(
                config.manual_escape_c,
                config.fahrenheit,
                display_temp,
                unit_suffix,
            ),
            Knob::StandbyPoll => secs_string(config.standby_poll_secs),
            Knob::StartIn => match config.startup_mode {
                StartupMode::Bios => "BIOS".to_owned(),
                StartupMode::Smart => "Smart".to_owned(),
            },
            Knob::Logging => if config.log_enabled {
                "On".to_owned()
            } else {
                "Off".to_owned()
            },
            Knob::ShowWindow => if config.show_window_on_start {
                "Window".to_owned()
            } else {
                "Tray only".to_owned()
            },
            Knob::SingleFan => if config.single_fan {
                "Single".to_owned()
            } else {
                "Dual".to_owned()
            },
            Knob::EcLayout => match config.ec_layout {
                Some(EcLayout::Compat) => "Compatibility".to_owned(),
                _ => "Standard".to_owned(),
            },
        }
    }

    /// The settings with this row moved on one step, before the watchdog is
    /// held to its floor.
    pub open spec fn stepped(self, config: ConfigView, limits: Limits) -> ConfigView {
        match self {
            Knob::Poll => ConfigView {
                poll_secs: clamped(
                    preset_after(POLL_PRESETS@, config.poll_secs as int) as int,
                    limits.poll_secs_min as int,
                    limits.poll_secs_max as int,
                ) as u32,
                ..config
            },
            Knob::Watchdog => ConfigView {
                watchdog_secs: preset_after(WATCHDOG_PRESETS@, config.watchdog_secs as int),
                ..config
            },
            Knob::Escape => ConfigView {
                manual_escape_c: clamped(
                    preset_after(
                        ESCAPE_PRESETS@,
                        if config.manual_escape_c < 0 {
                            0
                        } else {
                            config.manual_escape_c as int
                        },
                    ) as int,
                    limits.manual_escape_min as int,
                    limits.manual_escape_max as int,
                ) as i8,
                ..config
            },
            Knob::StandbyPoll => ConfigView {
                standby_poll_secs: clamped(
                    preset_after(STANDBY_POLL_PRESETS@, config.standby_poll_secs as int) as int,
                    limits.standby_poll_secs_min as int,
                    limits.standby_poll_secs_max as int,
                ) as u32,
                ..config
            },
            Knob::StartIn => ConfigView {
                startup_mode: match config.startup_mode {
                    StartupMode::Bios => StartupMode::Smart,
                    StartupMode::Smart => StartupMode::Bios,
                },
                ..config
            },
            Knob::Logging => ConfigView { log_enabled: !config.log_enabled, ..config },
            Knob::ShowWindow => ConfigView {
                show_window_on_start: !config.show_window_on_start,
                ..config
            },
            Knob::SingleFan => ConfigView { single_fan: !config.single_fan, ..config },
            Knob::EcLayout => ConfigView {
                ec_layout: if config.ec_layout == Some(EcLayout::Compat) {
                    Some(EcLayout::Standard)
                } else {
                    Some(EcLayout::Compat)
                },
                ..config
            },
        }
    }

    /// The settings with this row moved on one step and a watchdog no shorter
    /// than `floor`.
    pub open spec fn cycled(self, config: ConfigView, limits: Limits, floor: u32) -> ConfigView {
        self.stepped(config, limits).with_watchdog_floor(floor)
    }

    /// Moves the setting on one step, leaving the watchdog's floor to the
    /// caller.
    pub fn step(self, config: &mut Config, limits: &Limits)
        requires
            limits.well_formed(),
        ensures
            final(config)@ == self.stepped(old(config)@, *limits),
    {
        match self {
            Knob::Poll => {
                let next = next_preset(&POLL_PRESETS, config.poll_secs);
                config.poll_secs = clamp_secs(next, limits.poll_secs_min, limits.poll_secs_max);
            },
            Knob::Watchdog => {
                config.watchdog_secs = next_preset(&WATCHDOG_PRESETS, config.watchdog_secs);
            },
            Knob::Escape => {
                // Always in Celsius underneath, whatever the row is showing.
                let current: u32 = if config.manual_escape_c < 0 {
                    0
                } else {
                    config.manual_escape_c as u32
                };
                let next = next_preset(&ESCAPE_PRESETS, current);
                proof {
                    lemma_escape_preset_fits(current as int);
                }
                config.manual_escape_c = clamp_celsius(
                    next as i8,
                    limits.manual_escape_min,
                    limits.manual_escape_max,
                );
            },
            Knob::StandbyPoll => {
                let next = next_preset(&STANDBY_POLL_PRESETS, config.standby_poll_secs);
                config.standby_poll_secs = clamp_secs(
                    next,
                    limits.standby_poll_secs_min,
                    limits.standby_poll_secs_max,
                );
            },
            Knob::StartIn => {
                // Which mode the engine begins in, not which mode it is in now.
                config.startup_mode = match config.startup_mode {
                    StartupMode::Bios => StartupMode::Smart,
                    StartupMode::Smart => StartupMode::Bios,
                };
            },
            Knob::Logging => {
                config.log_enabled = !config.log_enabled;
            },
            Knob::ShowWindow => {
                config.show_window_on_start = !config.show_window_on_start;
            },
            Knob::SingleFan => {
                config.single_fan = !config.single_fan;
            },
            Knob::EcLayout => {
                // Between the two concrete modes, always: settings that the
                // first start has not decided yet read as Standard.
                config.ec_layout = match config.ec_layout {
                    Some(EcLayout::Compat) => Some(EcLayout::Standard),
                    _ => Some(EcLayout::Compat),
                };
            },
        }
    }

    /// Moves the setting on one step.
    ///
    /// The watchdog is held to its floor after every step, because a slower
    /// poll raises the shortest watchdog that will not fire during ordinary
    /// running. `watchdog_floor` answers what that is for a poll interval and a
    /// standby poll interval.
    pub fn cycle<F: Fn(u32, u32) -> u32>(
        self,
        config: &mut Config,
        limits: &Limits,
        watchdog_floor: &F,
    )
        requires
            limits.well_formed(),
            forall|poll: u32, standby: u32| #[trigger] watchdog_floor.requires((poll, standby)),
        ensures
            exists|floor: u32|
                {
                    &&& #[trigger] watchdog_floor.ensures(
                        (
                            self.stepped(old(config)@, *limits).poll_secs,
                            self.stepped(old(config)@, *limits).standby_poll_secs,
                        ),
                        floor,
                    )
                    &&& final(config)@ == self.cycled(old(config)@, *limits, floor)
                },
    {
        self.step(config, limits);
        let floor = watchdog_floor(config.poll_secs, config.standby_poll_secs);
        config.raise_watchdog(floor);
    }
}

proof fn lemma_escape_preset_fits(current: int)
    ensures
        preset_after(ESCAPE_PRESETS@, current) <= 90,
{
    reveal_with_fuel(above_from, 9);
}

} // verus!
