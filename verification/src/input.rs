//! What a message from the system asks of the window.

use crate::knob::{Knob, KNOBS};
use crate::point::{PointKnob, POINT_KNOBS};
use crate::settings::{Hover, Settings, SettingsView};
use vstd::prelude::*;

verus! {

/// The messages that mean something here, as the system numbers them.
pub const MESSAGE_DESTROY: u32 = 0x0002;

pub const MESSAGE_SIZE: u32 = 0x0005;

pub const MESSAGE_PAINT: u32 = 0x000f;

pub const MESSAGE_CLOSE: u32 = 0x0010;

pub const MESSAGE_GETMINMAXINFO: u32 = 0x0024;

pub const MESSAGE_KEYDOWN: u32 = 0x0100;

pub const MESSAGE_MOUSEMOVE: u32 = 0x0200;

pub const MESSAGE_LBUTTONDOWN: u32 = 0x0201;

pub const MESSAGE_LBUTTONUP: u32 = 0x0202;

pub const MESSAGE_LBUTTONDBLCLK: u32 = 0x0203;

pub const MESSAGE_RBUTTONUP: u32 = 0x0205;

pub const MESSAGE_DPICHANGED: u32 = 0x02e0;

/// The keys that mean something here.
pub const KEY_RETURN: usize = 0x0d;

pub const KEY_ESCAPE: usize = 0x1b;

pub const KEY_S: usize = 0x53;

/// What is true of the pointer, the keyboard and the curve when a message
/// arrives.
#[derive(Debug, Clone, Copy, PartialEq, Eq)]
pub struct Facts {
    /// The pointer is on the profile picker above the graph.
    pub on_picker: bool,
    /// The pointer is on the Profile row, and there is one.
    pub on_profile_row: bool,
    /// The pointer is on the Mode row, and there is one.
    pub on_mode_row: bool,
    /// The pointer is on the Level row, and there is one.
    pub on_level_row: bool,
    /// The pointer is on the Discard button, and there is one.
    pub on_discard: bool,
    /// The pointer is on the Save button.
    pub on_save: bool,
    /// For each settings row, whether the pointer is on it.
    pub on_tuning_rows: [bool; 9],
    /// For each row of the chosen point, whether the pointer is on it.
    pub on_point_rows: [bool; 2],
    /// The pointer is on the graph.
    pub on_canvas: bool,
    /// The sensor row under the pointer, where the list is drawn.
    pub sensor_row: Option<usize>,
    /// The curve point under the pointer.
    pub curve_point: Option<usize>,
    /// The curve on screen has changes that are not saved.
    pub dirty: bool,
    /// A curve point is being dragged.
    pub dragging: bool,
    /// The key that went down.
    pub key: usize,
    /// The control key is held.
    pub ctrl: bool,
}

/// What the window does about a message.
#[derive(Debug, Clone, Copy, PartialEq, Eq, Structural)]
pub enum Response {
    /// Leave it to the system's own handling.
    PassOn,
    /// It has been dealt with, by doing nothing.
    Nothing,
    /// Draw.
    Paint,
    /// The drawing surface no longer fits the window: drop it and draw again.
    Resize,
    /// Take the rectangle that comes with the message, and then as above.
    AdoptRectangle,
    /// Answer how small the window may become.
    AnswerMinimum,
    OpenProfileMenu,
    CycleMode,
    CycleLevel,
    DiscardEdits,
    /// Write the curve out.
    Apply,
    ChangeSetting(Knob),
    StepPoint(PointKnob),
    /// See whether there is a curve point to take hold of.
    Grab,
    /// A curve point has been taken hold of: keep the pointer and draw again.
    HoldPointer,
    /// Stop talking about the chosen point and draw again.
    Deselect,
    /// Move the point that is held.
    Drag,
    /// Light up what the pointer is over.
    Hover,
    /// Let go of the point that is held.
    Release,
    AddPoint,
    ToggleIgnored(usize),
    RemovePoint(usize),
    /// Save what is not saved, and go away.
    Close,
    /// The window is gone: forget it.
    Forget,
}

/// The position of the first row that is marked, from `from` on.
pub open spec fn marked_from(rows: Seq<bool>, from: int) -> Option<int>
    decreases rows.len() - from,
{
    if from < 0 || from >= rows.len() {
        None
    } else if rows[from] {
        Some(from)
    } else {
        marked_from(rows, from + 1)
    }
}

/// The position of the first row that is marked.
pub open spec fn marked(rows: Seq<bool>) -> Option<usize> {
    match marked_from(rows, 0) {
        Some(i) => Some(i as usize),
        None => None,
    }
}

/// The setting of the first marked row.
pub open spec fn knob_marked(rows: Seq<bool>) -> Option<Knob> {
    match marked_from(rows, 0) {
        Some(i) => Some(KNOBS@[i]),
        None => None,
    }
}

/// The first marked row of the chosen point.
pub open spec fn point_knob_marked(rows: Seq<bool>) -> Option<PointKnob> {
    match marked_from(rows, 0) {
        Some(i) => Some(POINT_KNOBS@[i]),
        None => None,
    }
}

/// A word of sixteen bits read as a signed number.
pub open spec fn signed_word(word: int) -> int {
    if word < 0x8000 {
        word
    } else {
        word - 0x1_0000
    }
}

impl Facts {
    /// The facts are ones of a window in this state: while there are no readings
    /// none of their rows is under the pointer, because none is drawn, and the
    /// Level row is under it only while a level is held.
    pub open spec fn fit(self, s: SettingsView) -> bool {
        &&& s.readout.fault ==> {
            &&& !self.on_profile_row
            &&& !self.on_mode_row
            &&& !self.on_level_row
            &&& self.sensor_row is None
        }
        &&& s.readout.mode_raw != s.protocol.mode_manual ==> !self.on_level_row
    }
}

/// What a press of the left button asks for. Two ways into the profile menu,
/// then the rows and buttons that act, then the settings rows, then the rows of
/// the chosen point, and the graph last.
pub open spec fn press(facts: Facts) -> Response {
    if facts.on_picker || facts.on_profile_row {
        Response::OpenProfileMenu
    } else if facts.on_mode_row {
        Response::CycleMode
    } else if facts.on_level_row {
        Response::CycleLevel
    } else if facts.on_discard {
        Response::DiscardEdits
    } else if facts.on_save {
        if facts.dirty {
            Response::Apply
        } else {
            Response::Nothing
        }
    } else {
        match knob_marked(facts.on_tuning_rows@) {
            Some(knob) => Response::ChangeSetting(knob),
            None => match point_knob_marked(facts.on_point_rows@) {
                Some(knob) => Response::StepPoint(knob),
                None => Response::Grab,
            },
        }
    }
}

/// What a message asks for, in a window that is there to answer it.
pub open spec fn handled(message: u32, facts: Facts) -> Response {
    if message == MESSAGE_PAINT {
        Response::Paint
    } else if message == MESSAGE_SIZE {
        Response::Resize
    } else if message == MESSAGE_DPICHANGED {
        Response::AdoptRectangle
    } else if message == MESSAGE_GETMINMAXINFO {
        Response::AnswerMinimum
    } else if message == MESSAGE_LBUTTONDOWN {
        press(facts)
    } else if message == MESSAGE_MOUSEMOVE {
        if facts.dragging {
            Response::Drag
        } else {
            Response::Hover
        }
    } else if message == MESSAGE_LBUTTONUP {
        if facts.dragging {
            Response::Release
        } else {
            Response::Nothing
        }
    } else if message == MESSAGE_LBUTTONDBLCLK {
        // On the graph and nowhere else: clicking a row twice is a double
        // click too.
        if facts.on_canvas {
            Response::AddPoint
        } else {
            Response::Nothing
        }
    } else if message == MESSAGE_RBUTTONUP {
        match facts.sensor_row {
            Some(sensor) => Response::ToggleIgnored(sensor),
            None => match facts.curve_point {
                Some(point) => Response::RemovePoint(point),
                None => Response::Nothing,
            },
        }
    } else if message == MESSAGE_KEYDOWN {
        if (facts.ctrl && facts.key == KEY_S) || facts.key == KEY_RETURN {
            Response::Apply
        } else if facts.key == KEY_ESCAPE {
            Response::DiscardEdits
        } else {
            Response::Nothing
        }
    } else if message == MESSAGE_CLOSE {
        Response::Close
    } else if message == MESSAGE_DESTROY {
        Response::Forget
    } else {
        Response::PassOn
    }
}

/// What a message asks for. While a dialog is open somewhere, closing is
/// refused and everything else left to the system; without a window behind the
/// message everything is.
pub open spec fn answered(message: u32, modal: bool, present: bool, facts: Facts) -> Response {
    if modal {
        if message == MESSAGE_CLOSE {
            Response::Nothing
        } else {
            Response::PassOn
        }
    } else if present {
        handled(message, facts)
    } else {
        Response::PassOn
    }
}

/// The position of the first row that is marked.
pub fn first_marked(rows: &[bool]) -> (r: Option<usize>)
    ensures
        r == marked(rows@),
        r matches Some(i) ==> i < rows@.len() && marked_from(rows@, 0) == Some(i as int),
        r is None ==> marked_from(rows@, 0) is None,
{
    let mut i: usize = 0;
    while i < rows.len()
        invariant
            i <= rows@.len(),
            marked_from(rows@, 0) == marked_from(rows@, i as int),
        decreases rows@.len() - i,
    {
        if rows[i] {
            return Some(i);
        }
        i = i + 1;
    }
    None
}

/// Which settings row is under the pointer, if any.
pub fn tuning_hit(rows: &[bool; 9]) -> (r: Option<Knob>)
    ensures
        r == knob_marked(rows@),
{
    match first_marked(rows) {
        Some(i) => Some(KNOBS[i]),
        None => None,
    }
}

/// Which of the chosen point's rows is under the pointer, if any.
pub fn point_hit(rows: &[bool; 2]) -> (r: Option<PointKnob>)
    ensures
        r == point_knob_marked(rows@),
{
    match first_marked(rows) {
        Some(i) => Some(POINT_KNOBS[i]),
        None => None,
    }
}

fn press_response(facts: &Facts) -> (r: Response)
    ensures
        r == press(*facts),
{
    if facts.on_picker || facts.on_profile_row {
        return Response::OpenProfileMenu;
    }
    if facts.on_mode_row {
        return Response::CycleMode;
    }
    if facts.on_level_row {
        return Response::CycleLevel;
    }
    if facts.on_discard {
        return Response::DiscardEdits;
    }
    if facts.on_save {
        // Dimmed means disabled: with nothing changed there is nothing to
        // write.
        return if facts.dirty {
            Response::Apply
        } else {
            Response::Nothing
        };
    }
    if let Some(knob) = tuning_hit(&facts.on_tuning_rows) {
        return Response::ChangeSetting(knob);
    }
    if let Some(knob) = point_hit(&facts.on_point_rows) {
        return Response::StepPoint(knob);
    }
    Response::Grab
}

/// What a message asks for.
///
/// `modal` says that a dialog of this program is open, and `present` that there
/// is a window behind the message.
pub fn respond(message: u32, modal: bool, present: bool, facts: &Facts) -> (r: Response)
    ensures
        r == answered(message, modal, present, *facts),
{
    if modal {
        return if message == MESSAGE_CLOSE {
            Response::Nothing
        } else {
            Response::PassOn
        };
    }
    if !present {
        return Response::PassOn;
    }
    if message == MESSAGE_PAINT {
        Response::Paint
    } else if message == MESSAGE_SIZE {
        Response::Resize
    } else if message == MESSAGE_DPICHANGED {
        Response::AdoptRectangle
    } else if message == MESSAGE_GETMINMAXINFO {
        Response::AnswerMinimum
    } else if message == MESSAGE_LBUTTONDOWN {
        press_response(facts)
    } else if message == MESSAGE_MOUSEMOVE {
        if facts.dragging {
            Response::Drag
        } else {
            Response::Hover
        }
    } else if message == MESSAGE_LBUTTONUP {
        if facts.dragging {
            Response::Release
        } else {
            Response::Nothing
        }
    } else if message == MESSAGE_LBUTTONDBLCLK {
        if facts.on_canvas {
            Response::AddPoint
        } else {
            Response::Nothing
        }
    } else if message == MESSAGE_RBUTTONUP {
        match facts.sensor_row {
            Some(sensor) => Response::ToggleIgnored(sensor),
            None => match facts.curve_point {
                Some(point) => Response::RemovePoint(point),
                None => Response::Nothing,
            },
        }
    } else if message == MESSAGE_KEYDOWN {
        if (facts.ctrl && facts.key == KEY_S) || facts.key == KEY_RETURN {
            Response::Apply
        } else if facts.key == KEY_ESCAPE {
            Response::DiscardEdits
        } else {
            Response::Nothing
        }
    } else if message == MESSAGE_CLOSE {
        Response::Close
    } else if message == MESSAGE_DESTROY {
        Response::Forget
    } else {
        Response::PassOn
    }
}

/// What a press on the graph comes to, once it is known whether there was a
/// curve point to take hold of. On bare graph it puts the selection down.
pub fn after_grab(grabbed: bool, on_canvas: bool) -> (r: Response)
    ensures
        r == if grabbed {
            Response::HoldPointer
        } else if on_canvas {
            Response::Deselect
        } else {
            Response::Nothing
        },
{
    if grabbed {
        Response::HoldPointer
    } else if on_canvas {
        Response::Deselect
    } else {
        Response::Nothing
    }
}

/// The low word of a number and what is above it.
proof fn lemma_low_word(n: isize)
    ensures
        n & 0xffff == n as int % 0x1_0000,
        n >> 16 == n as int / 0x1_0000,
{
    let low = n & 0xffff;
    let rest = n >> 16;
    assert(0 <= low <= 0xffff && n == rest * 0x1_0000 + low) by (bit_vector)
        requires
            low == n & 0xffff,
            rest == n >> 16,
    ;
}

/// A word of sixteen bits read as a signed number.
fn signed(word: isize) -> (r: i16)
    requires
        0 <= word <= 0xffff,
    ensures
        r == signed_word(word as int),
{
    if word < 0x8000 {
        word as i16
    } else {
        (word - 0x1_0000) as i16
    }
}

/// Where the pointer is, in pixels: across in the low word of a message's
/// second parameter and down in the next, both signed.
#[verifier::spinoff_prover]
pub fn pointer_position(lparam: isize) -> (r: (i16, i16))
    ensures
        r.0 == signed_word(lparam as int % 0x1_0000),
        r.1 == signed_word((lparam as int / 0x1_0000) % 0x1_0000),
{
    let low: isize = lparam & 0xffff;
    let rest: isize = lparam >> 16;
    let high: isize = rest & 0xffff;
    proof {
        lemma_low_word(lparam);
        lemma_low_word(rest);
    }
    (signed(low), signed(high))
}

impl Settings {
    /// Notes what the pointer is over, and answers whether anything changed, so
    /// that moving the pointer does not draw the window again for nothing.
    pub fn point_at(
        &mut self,
        picker: bool,
        mode: bool,
        level: bool,
        profile: bool,
        rows: &[bool; 9],
    ) -> (repaint: bool)
        ensures
            final(self)@ == (SettingsView {
                hover: Hover { picker, mode, level, profile, knob: marked(rows@) },
                ..old(self)@
            }),
            repaint == (final(self)@.hover != old(self)@.hover),
    {
        let over = Hover { picker, mode, level, profile, knob: first_marked(rows) };
        let same_knob = match (over.knob, self.hover.knob) {
            (None, None) => true,
            (Some(a), Some(b)) => a == b,
            _ => false,
        };
        let changed = !same_knob || over.picker != self.hover.picker || over.mode
            != self.hover.mode || over.level != self.hover.level || over.profile
            != self.hover.profile;
        self.hover = over;
        changed
    }
}

} // verus!
