//! The rows for the chosen curve point, and the shape of a curve on the graph.

use crate::config::CurvePoint;
use crate::text::{decimal, decimal_string, joined};
use vstd::prelude::*;

verus! {

/// The two things that can be changed about the chosen curve point, named for
/// what they do.
#[derive(Debug, Clone, Copy, PartialEq, Eq, Structural)]
pub enum PointKnob {
    SlowDown,
    SpeedUp,
}

/// The rows, in the order they are drawn.
pub const POINT_KNOBS: [PointKnob; 2] = [PointKnob::SlowDown, PointKnob::SpeedUp];

impl PointKnob {
    /// The name on the row.
    pub open spec fn label_words(self) -> Seq<char> {
        match self {
            PointKnob::SlowDown => "Slows down"@,
            PointKnob::SpeedUp => "Speeds up"@,
        }
    }

    /// The number of degrees the row is about.
    pub open spec fn degrees(self, point: CurvePoint) -> i8 {
        match self {
            PointKnob::SlowDown => point.hyst_down,
            PointKnob::SpeedUp => point.hyst_up,
        }
    }

    /// The value as a phrase, so that the row reads as a sentence about the
    /// fan.
    pub open spec fn value_words(self, point: CurvePoint) -> Seq<char> {
        if self.degrees(point) == 0 {
            "right away"@
        } else {
            decimal(self.degrees(point) as int) + match self {
                PointKnob::SlowDown => "\u{00b0} cooler"@,
                PointKnob::SpeedUp => "\u{00b0} hotter"@,
            }
        }
    }

    /// The name on the row.
    pub fn label(self) -> (r: &'static str)
        ensures
            r@ == self.label_words(),
    {
        match self {
            PointKnob::SlowDown => "Slows down",
            PointKnob::SpeedUp => "Speeds up",
        }
    }

    /// The value as a phrase.
    pub fn value(self, point: &CurvePoint) -> (r: String)
        ensures
            r@ == self.value_words(*point),
    {
        let degrees: i8 = match self {
            PointKnob::SlowDown => point.hyst_down,
            PointKnob::SpeedUp => point.hyst_up,
        };
        if degrees == 0 {
            return "right away".to_owned();
        }
        let number = decimal_string(degrees as i64);
        match self {
            PointKnob::SlowDown => joined(number.as_str(), "\u{00b0} cooler"),
            PointKnob::SpeedUp => joined(number.as_str(), "\u{00b0} hotter"),
        }
    }
}

/// A level held over a range of temperatures: where it starts, where the next
/// one takes over, and the level that one runs. The last holds to the edge of
/// the graph.
#[derive(Debug, Clone, Copy, PartialEq, Eq, Structural)]
pub struct Run {
    pub from: i8,
    pub until: Option<i8>,
    pub level: u8,
    pub next_level: Option<u8>,
}

/// Temperatures over which the fan waits instead of changing level, between the
/// levels on either side of a step.
#[derive(Debug, Clone, Copy, PartialEq, Eq, Structural)]
pub struct Wait {
    /// The temperature of the step.
    pub at: i8,
    pub from: i32,
    pub until: i32,
    pub upper_level: u8,
    pub lower_level: u8,
    /// Waiting to slow down while cooling; otherwise waiting to speed up.
    pub cooling: bool,
}

/// The run that starts at one point.
pub open spec fn run_at(points: Seq<CurvePoint>, i: int) -> Run {
    Run {
        from: points[i].temp,
        until: if i + 1 < points.len() {
            Some(points[i + 1].temp)
        } else {
            None
        },
        level: points[i].level,
        next_level: if i + 1 < points.len() {
            Some(points[i + 1].level)
        } else {
            None
        },
    }
}

/// What the step at one point keeps before slowing down, left of it, and before
/// speeding up, right of it.
pub open spec fn waits_at(points: Seq<CurvePoint>, i: int) -> Seq<Wait> {
    let point = points[i];
    let below = points[i - 1];
    (if point.hyst_down > 0 {
        seq![
            Wait {
                at: point.temp,
                from: (point.temp - point.hyst_down) as i32,
                until: point.temp as i32,
                upper_level: point.level,
                lower_level: below.level,
                cooling: true,
            },
        ]
    } else {
        Seq::empty()
    }) + (if point.hyst_up > 0 {
        seq![
            Wait {
                at: point.temp,
                from: point.temp as i32,
                until: (point.temp + point.hyst_up) as i32,
                upper_level: point.level,
                lower_level: below.level,
                cooling: false,
            },
        ]
    } else {
        Seq::empty()
    })
}

/// The waits of the steps before position `n`, in order. The first point is not
/// a step: there is no level before it.
pub open spec fn waits_before(points: Seq<CurvePoint>, n: int) -> Seq<Wait>
    decreases n,
{
    if n <= 1 {
        Seq::empty()
    } else {
        waits_before(points, n - 1) + waits_at(points, n - 1)
    }
}

/// The runs of a curve, one for each point. A level holds until the next point,
/// so the shape is steps and not a ramp.
pub fn curve_runs(points: &Vec<CurvePoint>) -> (r: Vec<Run>)
    ensures
        r@ == Seq::new(points@.len(), |i: int| run_at(points@, i)),
{
    let mut runs: Vec<Run> = Vec::new();
    let mut i: usize = 0;
    while i < points.len()
        invariant
            i <= points@.len(),
            runs@.len() == i,
            forall|j: int| 0 <= j < i ==> #[trigger] runs@[j] == run_at(points@, j),
        decreases points@.len() - i,
    {
        let (until, next_level) = if i + 1 < points.len() {
            (Some(points[i + 1].temp), Some(points[i + 1].level))
        } else {
            (None, None)
        };
        runs.push(Run { from: points[i].temp, until, level: points[i].level, next_level });
        i = i + 1;
    }
    runs
}

/// The waits of a curve, in the order of its points.
pub fn curve_waits(points: &Vec<CurvePoint>) -> (r: Vec<Wait>)
    ensures
        r@ == waits_before(points@, points@.len() as int),
{
    let mut waits: Vec<Wait> = Vec::new();
    let mut i: usize = 1;
    while i < points.len()
        invariant
            1 <= i,
            i <= points@.len() || i == 1,
            waits@ == waits_before(points@, i as int),
        decreases points@.len() - i,
    {
        let point = points[i];
        let below = points[i - 1];
        if point.hyst_down > 0 {
            waits.push(
                Wait {
                    at: point.temp,
                    from: point.temp as i32 - point.hyst_down as i32,
                    until: point.temp as i32,
                    upper_level: point.level,
                    lower_level: below.level,
                    cooling: true,
                },
            );
        }
        if point.hyst_up > 0 {
            waits.push(
                Wait {
                    at: point.temp,
                    from: point.temp as i32,
                    until: point.temp as i32 + point.hyst_up as i32,
                    upper_level: point.level,
                    lower_level: below.level,
                    cooling: false,
                },
            );
        }
        assert(waits@ == waits_before(points@, i as int) + waits_at(points@, i as int));
        i = i + 1;
    }
    waits
}

/// A point on the graph, and whether it wears the ring of the chosen one.
#[derive(Debug, Clone, Copy, PartialEq, Eq, Structural)]
pub struct PointMark {
    pub temp: i8,
    pub level: u8,
    pub chosen: bool,
}

/// The points of a curve as they are marked on the graph. The chosen one is
/// told apart, because the rows beside the graph are about it.
pub fn point_marks(points: &Vec<CurvePoint>, chosen: Option<usize>) -> (r: Vec<PointMark>)
    ensures
        r@ == Seq::new(
            points@.len(),
            |i: int|
                PointMark {
                    temp: points@[i].temp,
                    level: points@[i].level,
                    chosen: chosen == Some(i as usize),
                },
        ),
{
    let mut marks: Vec<PointMark> = Vec::new();
    let mut i: usize = 0;
    while i < points.len()
        invariant
            i <= points@.len(),
            marks@.len() == i,
            forall|j: int|
                0 <= j < i ==> #[trigger] marks@[j] == (PointMark {
                    temp: points@[j].temp,
                    level: points@[j].level,
                    chosen: chosen == Some(j as usize),
                }),
        decreases points@.len() - i,
    {
        let is_chosen = match chosen {
            Some(at) => at == i,
            None => false,
        };
        marks.push(
            PointMark { temp: points[i].temp, level: points[i].level, chosen: is_chosen },
        );
        i = i + 1;
    }
    marks
}

} // verus!
