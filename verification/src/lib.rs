//! What the Yamato settings window knows and decides.
//!
//! The window itself is drawn with Direct2D by an ordinary program around this
//! library. Everything that is a decision stands here, over plain values: which
//! value a settings row moves on to and what it reads, which mode a click asks
//! the engine for and how long the answer is waited for, which profile a curve
//! is written to, what the profile menu offers, what a message from the system
//! asks for, and what each panel says.

pub mod conduct;
pub mod config;
pub mod input;
pub mod job;
pub mod knob;
pub mod laws;
pub mod layout;
pub mod menu;
pub mod panel;
pub mod point;
pub mod readout;
pub mod settings;
pub mod text;
pub mod wording;

pub use crate::config::{Config, CurvePoint, EcLayout, Limits, Profile, StartupMode};
pub use crate::job::{Ask, CurveSource, Job, Reply};
pub use crate::knob::{Knob, KNOBS};
pub use crate::menu::{MenuItem, ProfileAction};
pub use crate::point::{PointKnob, POINT_KNOBS};
pub use crate::readout::{Protocol, Readout, SENSOR_NAMES};
pub use crate::settings::Settings;
