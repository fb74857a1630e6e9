//! The rendering controller: reacts to timer ticks and to changes of the two
//! shape controls, and tells the host what to draw.
use vstd::prelude::*;
use crate::curve::{
    Spirograph, SpirographIter, Sample, clamp_ratio, clamp_ratio_spec, ratios_valid, advanced,
    restarted, can_advance_by,
};

verus! {

/// Initial offset ratio `l`, in hundredths.
pub const DEFAULT_L: u32 = 22;

/// Initial circle ratio `k`, in hundredths.
pub const DEFAULT_K: u32 = 46;

/// Radius of the fixed outer circle, in pixels.
pub const RADIUS: u32 = 150;

/// Step of the curve parameter per tick, in hundredths of a radian.
pub const STEP: u64 = 15;

/// Period of the redraw timer, in milliseconds.
pub const TICK_PERIOD_MS: u32 = 12;

/// Width and height of a drawing surface, in pixels.
pub const CANVAS_SIZE: u32 = 500;

/// Offset added to both coordinates of a curve point to centre it on the surface.
pub const ORIGIN: u32 = 250;

/// An event handed to the controller.
#[derive(Clone, Copy, Debug, PartialEq, Eq, Structural)]
pub enum Msg {
    /// The redraw timer fired.
    Tick,
    /// The `l` control moved to a raw reading, in hundredths.
    LSlider(i64),
    /// The `k` control moved to a raw reading, in hundredths.
    KSlider(i64),
}

/// What the host is to do on the drawing surface after an event.
#[derive(Clone, Copy, Debug, PartialEq, Eq, Structural)]
pub enum Action {
    /// Evaluate the curve at the sample, shift the point by `ORIGIN` on both
    /// axes, extend the current path to it and stroke.
    LineTo(Sample),
    /// Throw the current surface away and put a blank one in its place.
    NewCanvas,
}

/// Owner of the curve generator; the host owns the surface and follows the
/// actions handed back, so both are replaced in the same event.
#[derive(Clone, Copy, Debug, PartialEq, Eq, Structural)]
pub struct Controller {
    pub spirograph: SpirographIter,
}

impl Controller {
    /// Ratios in range, and the radius and the step as configured.
    pub open spec fn wf(self) -> bool {
        &&& ratios_valid(self.spirograph.s)
        &&& self.spirograph.s.r == RADIUS
        &&& self.spirograph.width == STEP
    }
}

/// The controller after handling `m`.
pub open spec fn next_controller(c: Controller, m: Msg) -> Controller {
    match m {
        Msg::Tick => Controller { spirograph: advanced(c.spirograph) },
        Msg::LSlider(v) => Controller {
            spirograph: restarted(
                c.spirograph,
                Spirograph { l: clamp_ratio_spec(v as int) as u32, ..c.spirograph.s },
            ),
        },
        Msg::KSlider(v) => Controller {
            spirograph: restarted(
                c.spirograph,
                Spirograph { k: clamp_ratio_spec(v as int) as u32, ..c.spirograph.s },
            ),
        },
    }
}

/// What the host is told to do when `c` handles `m`: a tick draws the sample at
/// the current parameter; a change of either control replaces the surface.
pub open spec fn action_of(c: Controller, m: Msg) -> Action {
    match m {
        Msg::Tick => Action::LineTo(Sample { s: c.spirograph.s, t: c.spirograph.now }),
        _ => Action::NewCanvas,
    }
}

/// Whether `c` can handle `m` without the curve parameter leaving the range of
/// `u64` (only a tick moves it).
pub open spec fn can_handle(c: Controller, m: Msg) -> bool {
    m is Tick ==> can_advance_by(c.spirograph, 1)
}

impl Controller {
    /// The controller at start-up: the default shape, at `t = 0`.
    pub fn new() -> (res: Self)
        ensures
            res == (Controller {
                spirograph: SpirographIter {
                    s: Spirograph { l: DEFAULT_L, k: DEFAULT_K, r: RADIUS },
                    now: 0,
                    width: STEP,
                },
            }),
            res.wf(),
    {
        Controller { spirograph: Spirograph::new(DEFAULT_L, DEFAULT_K, RADIUS).iter(STEP) }
    }

    /// Handles one event to completion and returns what the host must do.
    /// A tick hands out the current sample and moves on one step; a control
    /// change clamps the reading into range, sets the matching ratio and
    /// restarts the curve from `t = 0`, together with a fresh surface.
    pub fn update(&mut self, msg: Msg) -> (res: Action)
        requires
            old(self).wf(),
            can_handle(*old(self), msg),
        ensures
            final(self).wf(),
            *final(self) == next_controller(*old(self), msg),
            res == action_of(*old(self), msg),
    {
        match msg {
            Msg::Tick => Action::LineTo(self.spirograph.next()),
            Msg::LSlider(v) => {
                let s = Spirograph { l: clamp_ratio(v), ..self.spirograph.s };
                self.spirograph.reset(s);
                Action::NewCanvas
            },
            Msg::KSlider(v) => {
                let s = Spirograph { k: clamp_ratio(v), ..self.spirograph.s };
                self.spirograph.reset(s);
                Action::NewCanvas
            },
        }
    }
}

/// After either control changes, the next tick draws from `t = 0` with the new
/// shape, never from the parameter reached before the change; the surface is
/// replaced in the same event.
pub proof fn lemma_change_then_tick_starts_over(c: Controller, m: Msg)
    requires
        c.wf(),
        !(m is Tick),
    ensures
        action_of(c, m) == Action::NewCanvas,
        action_of(next_controller(c, m), Msg::Tick) == Action::LineTo(
            Sample { s: next_controller(c, m).spirograph.s, t: 0 },
        ),
        next_controller(c, m).spirograph.s == (match m {
            Msg::LSlider(v) => Spirograph { l: clamp_ratio_spec(v as int) as u32, ..c.spirograph.s },
            Msg::KSlider(v) => Spirograph { k: clamp_ratio_spec(v as int) as u32, ..c.spirograph.s },
            Msg::Tick => c.spirograph.s,
        }),
{
}

} // verus!
