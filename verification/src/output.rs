use vstd::prelude::*;

use crate::pen::{scale_axis, scaled, InputEvent, PenState};

verus! {

// ---------------------------------------------------------------------------
// Linux: a uinput tablet
// ---------------------------------------------------------------------------

pub open spec fn event(kind: u16, code: u16, value: i32) -> InputEvent {
    InputEvent { kind, code, value }
}

pub open spec fn flag(b: bool) -> i32 {
    if b {
        1
    } else {
        0
    }
}

/// The events that report a pen state to the virtual tablet: every axis,
/// every key, then the end of the report.
pub open spec fn report_of(s: PenState) -> Seq<InputEvent> {
    seq![
        event(3, 0, s.x),
        event(3, 1, s.y),
        event(3, 24, s.pressure),
        event(3, 25, s.distance),
        event(3, 26, s.tilt_x),
        event(3, 27, s.tilt_y),
        event(1, 320, flag(s.tool_pen)),
        event(1, 321, flag(s.eraser)),
        event(1, 330, flag(s.touch)),
        event(1, 331, flag(s.stylus1)),
        event(1, 332, flag(s.stylus2)),
        event(0, 0, 0),
    ]
}

fn flag_value(b: bool) -> (r: i32)
    ensures
        r == flag(b),
{
    if b {
        1
    } else {
        0
    }
}

/// The events that report `state` to the virtual tablet.
pub fn report_events(state: PenState) -> (r: Vec<InputEvent>)
    ensures
        r@ == report_of(state),
{
    let mut v: Vec<InputEvent> = Vec::new();
    v.push(InputEvent { kind: 3, code: 0, value: state.x });
    v.push(InputEvent { kind: 3, code: 1, value: state.y });
    v.push(InputEvent { kind: 3, code: 24, value: state.pressure });
    v.push(InputEvent { kind: 3, code: 25, value: state.distance });
    v.push(InputEvent { kind: 3, code: 26, value: state.tilt_x });
    v.push(InputEvent { kind: 3, code: 27, value: state.tilt_y });
    v.push(InputEvent { kind: 1, code: 320, value: flag_value(state.tool_pen) });
    v.push(InputEvent { kind: 1, code: 321, value: flag_value(state.eraser) });
    v.push(InputEvent { kind: 1, code: 330, value: flag_value(state.touch) });
    v.push(InputEvent { kind: 1, code: 331, value: flag_value(state.stylus1) });
    v.push(InputEvent { kind: 1, code: 332, value: flag_value(state.stylus2) });
    v.push(InputEvent { kind: 0, code: 0, value: 0 });
    proof {
        assert(v@ =~= report_of(state));
    }
    v
}

/// An absolute axis of the virtual tablet.
#[derive(Debug, Clone, Copy, PartialEq, Eq, Structural)]
pub struct AbsAxis {
    pub code: u16,
    pub minimum: i32,
    pub maximum: i32,
    pub resolution: i32,
}

pub open spec fn axis(code: u16, minimum: i32, maximum: i32, resolution: i32) -> AbsAxis {
    AbsAxis { code, minimum, maximum, resolution }
}

/// The axes of the virtual tablet: X and Y over the output ranges,
/// pressure, hover distance, and tilt in hundredths of a degree.
pub open spec fn axes_of(max_x: i32, max_y: i32, max_pressure: i32) -> Seq<AbsAxis> {
    seq![
        axis(0, 0, max_x, 100),
        axis(1, 0, max_y, 100),
        axis(24, 0, max_pressure, 0),
        axis(25, 0, 65535, 0),
        axis(26, -9000i32, 9000, 5074),
        axis(27, -9000i32, 9000, 5074),
    ]
}

/// The axes of the virtual tablet.
pub fn abs_axes(max_x: i32, max_y: i32, max_pressure: i32) -> (r: Vec<AbsAxis>)
    ensures
        r@ == axes_of(max_x, max_y, max_pressure),
{
    let mut v: Vec<AbsAxis> = Vec::new();
    v.push(AbsAxis { code: 0, minimum: 0, maximum: max_x, resolution: 100 });
    v.push(AbsAxis { code: 1, minimum: 0, maximum: max_y, resolution: 100 });
    v.push(AbsAxis { code: 24, minimum: 0, maximum: max_pressure, resolution: 0 });
    v.push(AbsAxis { code: 25, minimum: 0, maximum: 65535, resolution: 0 });
    v.push(AbsAxis { code: 26, minimum: -9000, maximum: 9000, resolution: 5074 });
    v.push(AbsAxis { code: 27, minimum: -9000, maximum: 9000, resolution: 5074 });
    proof {
        assert(v@ =~= axes_of(max_x, max_y, max_pressure));
    }
    v
}

// ---------------------------------------------------------------------------
// Windows: a synthetic pen
// ---------------------------------------------------------------------------

/// Maps `value` on `0..=source_max` to `0..=target_max`.
pub fn scale(value: i32, source_max: i32, target_max: i32) -> (r: i32)
    requires
        source_max > 0,
    ensures
        r == scaled(value as int, source_max as int, target_max as int),
        target_max >= 0 ==> 0 <= r <= target_max,
{
    scale_axis(value, source_max, target_max)
}

/// Where a pointer frame stands in its contact.
#[derive(Debug, Clone, Copy, PartialEq, Eq, Structural)]
pub enum PointerPhase {
    Down,
    Update,
    Up,
}

/// One frame of the synthetic pen.
#[derive(Debug, Clone, Copy, PartialEq, Eq, Structural)]
pub struct PointerFrame {
    pub phase: PointerPhase,
    pub in_range: bool,
    pub in_contact: bool,
    /// Position on the virtual desktop, in pixels.
    pub x: i32,
    pub y: i32,
    /// Pressure on `0..=1024`.
    pub pressure: u32,
    /// Tilt in degrees, `-90..=90`.
    pub tilt_x: i32,
    pub tilt_y: i32,
    pub barrel: bool,
    pub eraser: bool,
}

/// The virtual desktop.
#[derive(Debug, Clone, Copy, PartialEq, Eq, Structural)]
pub struct ScreenArea {
    pub x: i32,
    pub y: i32,
    pub width: i32,
    pub height: i32,
}

/// The pen's ranges and the desktop, such that a frame can be computed.
pub open spec fn frame_fits(max_x: i32, max_y: i32, max_pressure: i32, screen: ScreenArea) -> bool {
    &&& max_x > 0
    &&& max_y > 0
    &&& max_pressure > 0
    &&& screen.width > 0
    &&& screen.height > 0
    &&& screen.x + screen.width - 1 <= i32::MAX
    &&& screen.y + screen.height - 1 <= i32::MAX
}

/// Tilt in hundredths of a degree to degrees, rounded toward zero and
/// limited to `-90..=90`.
pub open spec fn tilt_degrees(t: i32) -> i32 {
    let d: int = if t >= 0 {
        t as int / 100
    } else {
        -((-(t as int)) / 100)
    };
    (if d < -90 {
        -90
    } else if d > 90 {
        90
    } else {
        d
    }) as i32
}

fn tilt(t: i32) -> (r: i32)
    ensures
        r == tilt_degrees(t),
{
    let d = t / 100;
    if d < -90 {
        -90
    } else if d > 90 {
        90
    } else {
        d
    }
}

/// What the synthetic pen remembers between frames.
#[derive(Debug, Clone, Copy, PartialEq, Eq, Structural)]
pub struct WindowsPen {
    pub was_in_range: bool,
    pub was_touching: bool,
    pub last: PenState,
}

/// The phase, whether in range and whether in contact of the frame for
/// `s` after `p`.
pub open spec fn windows_phase(p: WindowsPen, s: PenState) -> (PointerPhase, bool, bool) {
    let in_range = s.tool_pen || s.eraser;
    if in_range && s.touch && !p.was_touching {
        (PointerPhase::Down, true, true)
    } else if in_range && s.touch {
        (PointerPhase::Update, true, true)
    } else if in_range && p.was_touching {
        (PointerPhase::Up, true, false)
    } else if in_range {
        (PointerPhase::Update, true, false)
    } else {
        (PointerPhase::Up, false, false)
    }
}

/// The frame for `s` after `p`: none while the pen stays out of range.
pub open spec fn windows_frame(
    p: WindowsPen,
    s: PenState,
    max_x: i32,
    max_y: i32,
    max_pressure: i32,
    screen: ScreenArea,
) -> Option<PointerFrame> {
    let in_range = s.tool_pen || s.eraser;
    if !in_range && !p.was_in_range {
        None
    } else {
        let ph = windows_phase(p, s);
        Some(
            PointerFrame {
                phase: ph.0,
                in_range: ph.1,
                in_contact: ph.2,
                x: (screen.x + scaled(s.x as int, max_x as int, screen.width - 1)) as i32,
                y: (screen.y + scaled(s.y as int, max_y as int, screen.height - 1)) as i32,
                pressure: scaled(s.pressure as int, max_pressure as int, 1024) as u32,
                tilt_x: tilt_degrees(s.tilt_x),
                tilt_y: tilt_degrees(s.tilt_y),
                barrel: s.stylus1,
                eraser: s.eraser,
            },
        )
    }
}

/// What the synthetic pen remembers after a report of `s`: all of it when
/// a frame was injected for it (`framed`), else only the state.
pub open spec fn windows_committed(p: WindowsPen, s: PenState, framed: bool) -> WindowsPen {
    if framed {
        WindowsPen { was_in_range: s.tool_pen || s.eraser, was_touching: s.touch, last: s }
    } else {
        WindowsPen { last: s, ..p }
    }
}

impl WindowsPen {
    /// The pen before the first frame.
    pub fn new() -> (r: Self)
        ensures
            !r.was_in_range,
            !r.was_touching,
            r.last == crate::pen::pen_at_rest(),
    {
        WindowsPen { was_in_range: false, was_touching: false, last: PenState::default() }
    }

    /// The frame to inject for `state`, if any.
    pub fn frame(
        &self,
        state: PenState,
        max_x: i32,
        max_y: i32,
        max_pressure: i32,
        screen: ScreenArea,
    ) -> (r: Option<PointerFrame>)
        requires
            frame_fits(max_x, max_y, max_pressure, screen),
        ensures
            r == windows_frame(*self, state, max_x, max_y, max_pressure, screen),
    {
        let in_range = state.in_range();
        if !in_range && !self.was_in_range {
            return None;
        }
        let (phase, in_range_flag, in_contact) = if in_range && state.touch && !self.was_touching {
            (PointerPhase::Down, true, true)
        } else if in_range && state.touch {
            (PointerPhase::Update, true, true)
        } else if in_range && self.was_touching {
            (PointerPhase::Up, true, false)
        } else if in_range {
            (PointerPhase::Update, true, false)
        } else {
            (PointerPhase::Up, false, false)
        };
        let x = screen.x + scale(state.x, max_x, screen.width - 1);
        let y = screen.y + scale(state.y, max_y, screen.height - 1);
        let pressure = scale(state.pressure, max_pressure, 1024) as u32;
        Some(
            PointerFrame {
                phase,
                in_range: in_range_flag,
                in_contact,
                x,
                y,
                pressure,
                tilt_x: tilt(state.tilt_x),
                tilt_y: tilt(state.tilt_y),
                barrel: state.stylus1,
                eraser: state.eraser,
            },
        )
    }

    /// Records `state` after its frame was injected (`framed`), or after it
    /// needed none.
    pub fn commit(&mut self, state: PenState, framed: bool)
        ensures
            *final(self) == windows_committed(*old(self), state, framed),
    {
        if framed {
            self.was_in_range = state.in_range();
            self.was_touching = state.touch;
        }
        self.last = state;
    }

    /// The state to send when the pen goes away while in range: the last
    /// one, with no tool and no contact.
    pub fn release(&self) -> (r: Option<PenState>)
        ensures
            self.was_in_range ==> r == Some(
                PenState { tool_pen: false, eraser: false, touch: false, ..self.last },
            ),
            !self.was_in_range ==> r is None,
    {
        if self.was_in_range {
            let mut released = self.last;
            released.tool_pen = false;
            released.eraser = false;
            released.touch = false;
            Some(released)
        } else {
            None
        }
    }
}

// ---------------------------------------------------------------------------
// macOS: tablet events
// ---------------------------------------------------------------------------

/// The mouse event that carries a tablet point.
#[derive(Debug, Clone, Copy, PartialEq, Eq, Structural)]
pub enum MouseKind {
    Down,
    Dragged,
    Up,
    Moved,
}

/// An event to post.
#[derive(Debug, Clone, Copy, PartialEq, Eq, Structural)]
pub enum MacAction {
    /// The pen (or the eraser) enters or leaves the tablet's proximity.
    Proximity { entering: bool, eraser: bool },
    /// A tablet point.
    Pointer { state: PenState, kind: MouseKind },
}

/// What the tablet events remember between reports.
#[derive(Debug, Clone, Copy, PartialEq, Eq, Structural)]
pub struct MacPen {
    pub was_in_range: bool,
    pub was_touching: bool,
    pub was_eraser: bool,
    pub last: PenState,
}

/// The mouse event for a point of `s` after `p`.
pub open spec fn mouse_kind(p: MacPen, s: PenState) -> MouseKind {
    if s.touch && !p.was_touching {
        MouseKind::Down
    } else if s.touch {
        MouseKind::Dragged
    } else if p.was_touching {
        MouseKind::Up
    } else {
        MouseKind::Moved
    }
}

/// The last state with the tip lifted.
pub open spec fn lifted(s: PenState) -> PenState {
    PenState { touch: false, pressure: 0, ..s }
}

/// The events for leaving proximity: the tip lifted first if it touched.
pub open spec fn leaving(p: MacPen) -> Seq<MacAction> {
    (if p.was_touching {
        seq![MacAction::Pointer { state: lifted(p.last), kind: mouse_kind(p, lifted(p.last)) }]
    } else {
        Seq::empty()
    }) + seq![MacAction::Proximity { entering: false, eraser: p.was_eraser }]
}

/// The events for a report of `s` after `p`: in range, a proximity event
/// when the pen arrives or changes end, then the point; out of range after
/// being in range, the events for leaving; else none.
pub open spec fn mac_actions(p: MacPen, s: PenState) -> Seq<MacAction> {
    let in_range = s.tool_pen || s.eraser;
    if in_range {
        (if !p.was_in_range || s.eraser != p.was_eraser {
            seq![MacAction::Proximity { entering: true, eraser: s.eraser }]
        } else {
            Seq::empty()
        }) + seq![MacAction::Pointer { state: s, kind: mouse_kind(p, s) }]
    } else if p.was_in_range {
        leaving(p)
    } else {
        Seq::empty()
    }
}

/// What the tablet events remember after a report of `s`: whether the pen
/// is in proximity, whether its tip touches there, which end is near, and
/// the state.
pub open spec fn mac_committed(s: PenState) -> MacPen {
    MacPen {
        was_in_range: s.tool_pen || s.eraser,
        was_touching: (s.tool_pen || s.eraser) && s.touch,
        was_eraser: s.eraser,
        last: s,
    }
}

impl MacPen {
    /// The pen before the first report.
    pub fn new() -> (r: Self)
        ensures
            !r.was_in_range,
            !r.was_touching,
            !r.was_eraser,
            r.last == crate::pen::pen_at_rest(),
    {
        MacPen {
            was_in_range: false,
            was_touching: false,
            was_eraser: false,
            last: PenState::default(),
        }
    }

    fn kind(&self, state: PenState) -> (r: MouseKind)
        ensures
            r == mouse_kind(*self, state),
    {
        if state.touch && !self.was_touching {
            MouseKind::Down
        } else if state.touch {
            MouseKind::Dragged
        } else if self.was_touching {
            MouseKind::Up
        } else {
            MouseKind::Moved
        }
    }

    /// The events for leaving proximity.
    pub fn release_actions(&self) -> (r: Vec<MacAction>)
        ensures
            r@ == leaving(*self),
    {
        let mut v: Vec<MacAction> = Vec::new();
        if self.was_touching {
            let mut released = self.last;
            released.touch = false;
            released.pressure = 0;
            let kind = self.kind(released);
            v.push(MacAction::Pointer { state: released, kind });
        }
        v.push(MacAction::Proximity { entering: false, eraser: self.was_eraser });
        proof {
            assert(v@ =~= leaving(*self));
        }
        v
    }

    /// The events to post for a report of `state`.
    pub fn actions(&self, state: PenState) -> (r: Vec<MacAction>)
        ensures
            r@ == mac_actions(*self, state),
    {
        let in_range = state.in_range();
        if in_range {
            let mut v: Vec<MacAction> = Vec::new();
            if !self.was_in_range || state.eraser != self.was_eraser {
                v.push(MacAction::Proximity { entering: true, eraser: state.eraser });
            }
            let kind = self.kind(state);
            v.push(MacAction::Pointer { state, kind });
            proof {
                assert(v@ =~= mac_actions(*self, state));
            }
            v
        } else if self.was_in_range {
            self.release_actions()
        } else {
            Vec::new()
        }
    }

    /// Records `state` after its events were posted.
    pub fn commit(&mut self, state: PenState)
        ensures
            *final(self) == mac_committed(state),
    {
        let in_range = state.in_range();
        self.was_in_range = in_range;
        self.was_touching = in_range && state.touch;
        self.was_eraser = state.eraser;
        self.last = state;
    }
}

} // verus!
