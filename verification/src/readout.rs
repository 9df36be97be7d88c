//! What the engine reports, and the numbers it is spoken to in.

use vstd::prelude::*;

verus! {

/// How many sensors the controller reports.
pub const SENSOR_COUNT: usize = 12;

/// The highest fan level that is a speed.
pub const FAN_LEVEL_MAX: u8 = 7;

/// The control register while the firmware drives the fan.
pub const FAN_BIOS: u8 = 0x80;

/// The control register with the fan disengaged from any control.
pub const FAN_DISENGAGED: u8 = 0x40;

/// The level shown and counted from when the register holds none.
pub const MIDDLE_LEVEL: u8 = 4;

/// Sensor names, in the order the controller reports them.
pub const SENSOR_NAMES: [&'static str; 12] = [
    "CPU",
    "GPU",
    "Board",
    "PCI",
    "Fan",
    "Battery",
    "Slot",
    "Bus",
    "Board2",
    "Battery2",
    "Board3",
    "Board4",
];

/// The values the engine and the window use for the same things.
#[derive(Debug, Clone, Copy, PartialEq, Eq, Structural)]
pub struct Protocol {
    /// The firmware drives the fan.
    pub mode_bios: u8,
    /// The curve drives the fan.
    pub mode_smart: u8,
    /// A fixed level is held.
    pub mode_manual: u8,
    /// Whoever drives the fan now goes on doing so.
    pub mode_keep: u8,
    /// The fan could not be handed back to the firmware.
    pub status_handback_failed: u8,
}

impl Protocol {
    /// No two modes share a value.
    pub open spec fn distinct(self) -> bool {
        &&& self.mode_bios != self.mode_smart
        &&& self.mode_bios != self.mode_manual
        &&& self.mode_smart != self.mode_manual
    }

    /// The mode a click on the Mode row asks for: from the firmware and from a
    /// held level to the curve, and from anything else to the firmware.
    pub open spec fn mode_after(self, mode: u8) -> u8 {
        if mode == self.mode_bios || mode == self.mode_manual {
            self.mode_smart
        } else {
            self.mode_bios
        }
    }

    /// What a mode is called on screen.
    pub open spec fn mode_words(self, mode: u8) -> Seq<char> {
        if mode == self.mode_smart {
            "Smart"@
        } else if mode == self.mode_manual {
            "Manual"@
        } else {
            "BIOS"@
        }
    }

    /// The mode a click on the Mode row asks for.
    pub fn next_mode(&self, mode: u8) -> (r: u8)
        ensures
            r == self.mode_after(mode),
    {
        if mode == self.mode_bios || mode == self.mode_manual {
            self.mode_smart
        } else {
            self.mode_bios
        }
    }

    /// What a mode is called on screen.
    pub fn mode_name(&self, mode: u8) -> (r: &'static str)
        ensures
            r@ == self.mode_words(mode),
    {
        if mode == self.mode_smart {
            "Smart"
        } else if mode == self.mode_manual {
            "Manual"
        } else {
            "BIOS"
        }
    }
}

/// What the engine last reported. Everything here is displayed.
#[derive(Debug, Clone)]
pub struct Readout {
    pub sensors: [Option<i8>; 12],
    /// The sensor that drives the curve and what it reads.
    pub hottest: Option<(usize, i8)>,
    pub fan_rpm: [u16; 2],
    pub mode: &'static str,
    /// The same thing as one of the values of [`Protocol`]. The string above is
    /// for reading; this is for deciding.
    pub mode_raw: u8,
    /// The fan control register as the engine last saw it.
    pub fan_ctrl: u8,
    pub profile: String,
    pub fault: bool,
    /// Which kind of trouble, zero when there is none.
    pub status: u8,
    /// The failures look like those of a machine with one fan that is set up
    /// for two.
    pub single_fan_hint: bool,
    /// The controller mode worth suggesting, zero for none.
    pub layout_hint: u8,
}

/// A report as a mathematical value.
pub struct ReadoutView {
    pub sensors: Seq<Option<i8>>,
    pub hottest: Option<(usize, i8)>,
    pub fan_rpm: Seq<u16>,
    pub mode: Seq<char>,
    pub mode_raw: u8,
    pub fan_ctrl: u8,
    pub profile: Seq<char>,
    pub fault: bool,
    pub status: u8,
    pub single_fan_hint: bool,
    pub layout_hint: u8,
}

impl View for Readout {
    type V = ReadoutView;

    open spec fn view(&self) -> ReadoutView {
        ReadoutView {
            sensors: self.sensors@,
            hottest: self.hottest,
            fan_rpm: self.fan_rpm@,
            mode: self.mode@,
            mode_raw: self.mode_raw,
            fan_ctrl: self.fan_ctrl,
            profile: self.profile@,
            fault: self.fault,
            status: self.status,
            single_fan_hint: self.single_fan_hint,
            layout_hint: self.layout_hint,
        }
    }
}

/// A report that nothing has been heard for yet.
pub open spec fn silent_readout() -> ReadoutView {
    ReadoutView {
        sensors: Seq::new(12, |i: int| None::<i8>),
        hottest: None,
        fan_rpm: seq![0u16, 0u16],
        mode: Seq::empty(),
        mode_raw: 0,
        fan_ctrl: 0,
        profile: Seq::empty(),
        fault: false,
        status: 0,
        single_fan_hint: false,
        layout_hint: 0,
    }
}

impl Default for Readout {
    fn default() -> (r: Readout)
        ensures
            r@ == silent_readout(),
    {
        let r = Readout {
            sensors: [None, None, None, None, None, None, None, None, None, None, None, None],
            hottest: None,
            fan_rpm: [0, 0],
            mode: "",
            mode_raw: 0,
            fan_ctrl: 0,
            profile: String::new(),
            fault: false,
            status: 0,
            single_fan_hint: false,
            layout_hint: 0,
        };
        proof {
            reveal_strlit("");
            assert(""@ == Seq::<char>::empty());
            assert(r@.sensors == silent_readout().sensors);
            assert(r@.fan_rpm == silent_readout().fan_rpm);
        }
        r
    }
}

/// The level to show for a control register, and the one a step counts from:
/// the register itself where it is a level worth holding, and a middle level
/// where it is the firmware's value, the disengaged one, or zero.
pub open spec fn level_held(fan_ctrl: u8) -> u8 {
    if 1 <= fan_ctrl <= FAN_LEVEL_MAX {
        fan_ctrl
    } else {
        MIDDLE_LEVEL
    }
}

/// The level after this one, 1 through 7 and back to 1.
pub open spec fn level_after(level: u8) -> u8 {
    (level as int % FAN_LEVEL_MAX as int + 1) as u8
}

impl Readout {
    /// The level to show, and the one a step counts from.
    pub fn held_level(&self) -> (r: u8)
        ensures
            r == level_held(self@.fan_ctrl),
    {
        if 1 <= self.fan_ctrl && self.fan_ctrl <= FAN_LEVEL_MAX {
            self.fan_ctrl
        } else {
            MIDDLE_LEVEL
        }
    }

    /// The temperature the curve is being asked about, for the marker on the
    /// graph.
    pub fn live_temp(&self) -> (r: Option<i8>)
        ensures
            r == match self@.hottest {
                Some(hottest) => Some(hottest.1),
                None => None,
            },
    {
        match self.hottest {
            Some((_, temp)) => Some(temp),
            None => None,
        }
    }
}

} // verus!
