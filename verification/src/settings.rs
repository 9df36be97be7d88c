//! The window's own state: what it shows, what it has asked the engine for,
//! and which profile the curve on screen belongs to.

use crate::config::{Config, ConfigView};
use crate::knob::{answers_temps, shows_temp, temp_string};
use crate::readout::{
    level_after, level_held, silent_readout, Protocol, Readout, ReadoutView, FAN_LEVEL_MAX,
};
use vstd::prelude::*;

verus! {

/// What was asked of the engine, and how long to keep showing it while
/// waiting. The deadline is on the caller's clock, in nanoseconds.
#[derive(Debug, Clone, Copy, PartialEq, Eq, Structural)]
pub struct Pending {
    pub mode: u8,
    pub level: u8,
    pub deadline: u128,
}

/// What the pointer is over, of the things that light up under it.
#[derive(Debug, Clone, Copy, PartialEq, Eq, Structural)]
pub struct Hover {
    pub picker: bool,
    pub mode: bool,
    pub level: bool,
    pub profile: bool,
    /// The settings row, by its position.
    pub knob: Option<usize>,
}

/// The settings window.
pub struct Settings {
    pub protocol: Protocol,
    /// A mode command that has been sent and has not come back yet. Until it
    /// has, every report still describes the mode being left.
    pub pending: Option<Pending>,
    /// The latest report from the engine.
    pub readout: Readout,
    /// The profile the curve on screen came from, and the one it is written
    /// back to.
    pub editing: String,
    /// The settings file as it stands.
    pub config: Config,
    pub hover: Hover,
}

/// The settings window as a mathematical value.
pub struct SettingsView {
    pub protocol: Protocol,
    pub pending: Option<Pending>,
    pub readout: ReadoutView,
    pub editing: Seq<char>,
    pub config: ConfigView,
    pub hover: Hover,
}

impl View for Settings {
    type V = SettingsView;

    open spec fn view(&self) -> SettingsView {
        SettingsView {
            protocol: self.protocol,
            pending: self.pending,
            readout: self.readout@,
            editing: self.editing@,
            config: self.config@,
            hover: self.hover,
        }
    }
}

/// How long a command is waited for, in nanoseconds: two polls and two seconds,
/// because a command is picked up on one pass and its result published by the
/// next.
pub open spec fn wait_nanos(poll_secs: u32) -> int {
    (poll_secs as int * 2 + 2) * 1_000_000_000
}

impl ReadoutView {
    /// The report with an outstanding command written over it.
    pub open spec fn showing(self, protocol: Protocol, pending: Pending) -> ReadoutView {
        ReadoutView {
            mode_raw: pending.mode,
            mode: protocol.mode_words(pending.mode),
            fan_ctrl: if pending.mode == protocol.mode_manual {
                pending.level
            } else {
                self.fan_ctrl
            },
            ..self
        }
    }

    /// The report describes what the command asked for.
    pub open spec fn agrees(self, protocol: Protocol, pending: Pending) -> bool {
        &&& self.mode_raw == pending.mode
        &&& pending.mode == protocol.mode_manual ==> self.fan_ctrl == pending.level
    }
}

impl SettingsView {
    /// The state of a window that has just opened.
    pub open spec fn opened(
        editing: Seq<char>,
        config: ConfigView,
        protocol: Protocol,
    ) -> SettingsView {
        SettingsView {
            protocol,
            pending: None,
            readout: silent_readout(),
            editing,
            config,
            hover: Hover { picker: false, mode: false, level: false, profile: false, knob: None },
        }
    }

    /// The mode and level that a click on the Mode row asks for.
    pub open spec fn mode_click(self) -> (u8, u8) {
        (self.protocol.mode_after(self.readout.mode_raw), 0)
    }

    /// The mode and level that a click on the Level row asks for.
    pub open spec fn level_click(self) -> (u8, u8) {
        (self.protocol.mode_manual, level_after(level_held(self.readout.fan_ctrl)))
    }

    /// The state once a command has been sent.
    pub open spec fn awaiting(self, mode: u8, level: u8, now: u128) -> SettingsView {
        let pending = Pending {
            mode,
            level,
            deadline: (now + wait_nanos(self.config.poll_secs)) as u128,
        };
        SettingsView {
            pending: Some(pending),
            readout: self.readout.showing(self.protocol, pending),
            ..self
        }
    }

    /// The state once the report in hand has been held against the outstanding
    /// command: the command is forgotten when the report agrees with it or its
    /// time is up, and shown over the report until then.
    pub open spec fn settled(self, now: u128) -> SettingsView {
        match self.pending {
            None => self,
            Some(p) => if self.readout.agrees(self.protocol, p) || now >= p.deadline {
                SettingsView { pending: None, ..self }
            } else {
                SettingsView { readout: self.readout.showing(self.protocol, p), ..self }
            },
        }
    }

    /// The state once a report has come in, with the settings file and the
    /// pointer as they are found then.
    pub open spec fn sampled(
        self,
        readout: ReadoutView,
        now: u128,
        on_disk: ConfigView,
        over_picker: bool,
    ) -> SettingsView {
        let settled = (SettingsView { readout, ..self }).settled(now);
        SettingsView {
            config: on_disk,
            hover: Hover { picker: over_picker, ..settled.hover },
            ..settled
        }
    }
}

impl Settings {
    /// A window that has just opened on the profile `editing`, with nothing
    /// heard from the engine yet.
    pub fn new(editing: String, config: Config, protocol: Protocol) -> (r: Settings)
        ensures
            r@ == SettingsView::opened(editing@, config@, protocol),
    {
        Settings {
            protocol,
            pending: None,
            readout: Readout::default(),
            editing,
            config,
            hover: Hover { picker: false, mode: false, level: false, profile: false, knob: None },
        }
    }

    /// The mode a click on the Mode row asks for, and the level that goes with
    /// it, which is none.
    ///
    /// Two stops, the firmware and the curve. A fixed level switches the
    /// firmware's thermal management off and holds it off, and nothing arrives
    /// at that by cycling; a click while one is held lands on the curve, which
    /// gives management back.
    pub fn next_mode(&self) -> (r: (u8, u8))
        ensures
            r == self@.mode_click(),
    {
        (self.protocol.next_mode(self.readout.mode_raw), 0)
    }

    /// The level a click on the Level row asks for, 1 through 7 and back to 1.
    ///
    /// Zero is not in the ring: it would stop the fan with the firmware's own
    /// thermal management switched off.
    pub fn next_level(&self) -> (r: (u8, u8))
        ensures
            r == self@.level_click(),
    {
        let next = self.held_level() % FAN_LEVEL_MAX + 1;
        (self.protocol.mode_manual, next)
    }

    /// The level to show, and the one a step counts from.
    pub fn held_level(&self) -> (r: u8)
        ensures
            r == level_held(self@.readout.fan_ctrl),
    {
        self.readout.held_level()
    }

    /// Notes that a command has been sent at `now`, and shows it.
    pub fn await_mode(&mut self, mode: u8, level: u8, now: u128)
        requires
            now + wait_nanos(old(self)@.config.poll_secs) <= u128::MAX,
        ensures
            final(self)@ == old(self)@.awaiting(mode, level, now),
    {
        let wait: u128 = (self.config.poll_secs as u128 * 2 + 2) * 1_000_000_000;
        self.pending = Some(Pending { mode, level, deadline: now + wait });
        self.show_pending();
    }

    /// Decides whether the outstanding command has landed, and holds the report
    /// on what was asked for until it has.
    ///
    /// A command that never arrives stops being shown at its deadline, and the
    /// report goes back to what is running.
    pub fn settle_pending(&mut self, now: u128)
        ensures
            final(self)@ == old(self)@.settled(now),
    {
        if let Some(p) = self.pending {
            let arrived = self.readout.mode_raw == p.mode && (p.mode != self.protocol.mode_manual
                || self.readout.fan_ctrl == p.level);
            if arrived || now >= p.deadline {
                self.pending = None;
            } else {
                self.show_pending();
            }
        }
    }

    /// Writes the outstanding command over the report, so that what is drawn
    /// and what the next click counts from agree.
    pub fn show_pending(&mut self)
        ensures
            final(self)@ == match old(self)@.pending {
                Some(p) => (SettingsView {
                    readout: old(self)@.readout.showing(old(self)@.protocol, p),
                    ..old(self)@
                }),
                None => old(self)@,
            },
    {
        if let Some(p) = self.pending {
            self.readout.mode_raw = p.mode;
            self.readout.mode = self.protocol.mode_name(p.mode);
            if p.mode == self.protocol.mode_manual {
                self.readout.fan_ctrl = p.level;
            }
        }
    }

    /// The profile that is selected, which is what the settings file says.
    ///
    /// Not what the engine last published: it learns of a choice only after the
    /// file does.
    pub fn live_profile(&self) -> (r: String)
        ensures
            r@ == self@.config.active_profile,
    {
        self.config.active_profile.clone()
    }

    /// A temperature the way the user asked to see it, unit and all.
    pub fn temp_text<D: Fn(i8, bool) -> i32, U: Fn(bool) -> String>(
        &self,
        celsius: i8,
        display_temp: &D,
        unit_suffix: &U,
    ) -> (r: String)
        requires
            answers_temps(*display_temp, *unit_suffix),
        ensures
            shows_temp(*display_temp, *unit_suffix, celsius, self@.config.fahrenheit, r@),
    {
        temp_string(celsius, self.config.fahrenheit, display_temp, unit_suffix)
    }
}

} // verus!
