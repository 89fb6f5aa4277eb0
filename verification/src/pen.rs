use vstd::prelude::*;

use crate::text::push_decimal;
use crate::text::decimal;

verus! {

/// One evdev input event: type, code and value.
#[derive(Debug, Clone, Copy, PartialEq, Eq, Structural)]
pub struct InputEvent {
    pub kind: u16,
    pub code: u16,
    pub value: i32,
}

/// The pen as the last complete report left it.
#[derive(Debug, Clone, Copy, PartialEq, Eq, Structural)]
pub struct PenState {
    pub x: i32,
    pub y: i32,
    pub pressure: i32,
    pub distance: i32,
    pub tilt_x: i32,
    pub tilt_y: i32,
    pub touch: bool,
    pub stylus1: bool,
    pub stylus2: bool,
    pub tool_pen: bool,
    pub eraser: bool,
}

/// The pen before any event: every axis 0, no button or tool.
pub open spec fn pen_at_rest() -> PenState {
    PenState {
        x: 0,
        y: 0,
        pressure: 0,
        distance: 0,
        tilt_x: 0,
        tilt_y: 0,
        touch: false,
        stylus1: false,
        stylus2: false,
        tool_pen: false,
        eraser: false,
    }
}

impl Default for PenState {
    fn default() -> (r: Self)
        ensures
            r == pen_at_rest(),
    {
        PenState {
            x: 0,
            y: 0,
            pressure: 0,
            distance: 0,
            tilt_x: 0,
            tilt_y: 0,
            touch: false,
            stylus1: false,
            stylus2: false,
            tool_pen: false,
            eraser: false,
        }
    }
}

/// `EV_SYN`/`SYN_REPORT`: the event that ends a report.
pub open spec fn is_report_end(e: InputEvent) -> bool {
    e.kind == 0 && e.code == 0
}

/// The pen state after `e`: an absolute axis (`EV_ABS`: X, Y, pressure,
/// distance, tilt X, tilt Y) takes the event's value, a key (`EV_KEY`:
/// pen tool, rubber tool, touch, stylus, stylus 2) is down when the value
/// is not 0, and every other event leaves the state as it was.
pub open spec fn applied(s: PenState, e: InputEvent) -> PenState {
    let v = e.value;
    if e.kind == 3 && e.code == 0 {
        PenState { x: v, ..s }
    } else if e.kind == 3 && e.code == 1 {
        PenState { y: v, ..s }
    } else if e.kind == 3 && e.code == 24 {
        PenState { pressure: v, ..s }
    } else if e.kind == 3 && e.code == 25 {
        PenState { distance: v, ..s }
    } else if e.kind == 3 && e.code == 26 {
        PenState { tilt_x: v, ..s }
    } else if e.kind == 3 && e.code == 27 {
        PenState { tilt_y: v, ..s }
    } else if e.kind == 1 && e.code == 320 {
        PenState { tool_pen: v != 0, ..s }
    } else if e.kind == 1 && e.code == 321 {
        PenState { eraser: v != 0, ..s }
    } else if e.kind == 1 && e.code == 330 {
        PenState { touch: v != 0, ..s }
    } else if e.kind == 1 && e.code == 331 {
        PenState { stylus1: v != 0, ..s }
    } else if e.kind == 1 && e.code == 332 {
        PenState { stylus2: v != 0, ..s }
    } else {
        s
    }
}

/// `value` clamped to `0..=source_max`, times `target_max`, divided by
/// `source_max` with the quotient rounded toward zero.
pub open spec fn scaled(value: int, source_max: int, target_max: int) -> int {
    let c = if value < 0 {
        0
    } else if value > source_max {
        source_max
    } else {
        value
    };
    let p = c * target_max;
    if p >= 0 {
        p / source_max
    } else {
        -((-p) / source_max)
    }
}

/// The rotations the tablet supports, in degrees.
pub open spec fn valid_rotation(r: u16) -> bool {
    r == 0 || r == 90 || r == 180 || r == 270
}

/// A point of a tablet with ranges `max_x`, `max_y` turned by `rotate`
/// degrees, with the ranges of the turned tablet: `(x, y, max_x, max_y)`.
pub open spec fn rotated_point(x: int, y: int, max_x: int, max_y: int, rotate: u16) -> (
    int,
    int,
    int,
    int,
) {
    if rotate == 0 {
        (x, y, max_x, max_y)
    } else if rotate == 90 {
        (max_y - y, x, max_y, max_x)
    } else if rotate == 180 {
        (max_x - x, max_y - y, max_x, max_y)
    } else {
        (y, max_x - x, max_y, max_x)
    }
}

/// Whether `transformed` can turn a pen at `s` on a tablet with ranges
/// `max_x`, `max_y` by `rotate` without an arithmetic overflow.
pub open spec fn transform_fits(s: PenState, max_x: i32, max_y: i32, rotate: u16) -> bool {
    &&& valid_rotation(rotate)
    &&& max_x > 0
    &&& max_y > 0
    &&& (rotate == 90 || rotate == 180) ==> i32::MIN <= max_y - s.y <= i32::MAX
    &&& (rotate == 180 || rotate == 270) ==> i32::MIN <= max_x - s.x <= i32::MAX
}

/// The pen state turned by `rotate` degrees and scaled from the tablet's
/// ranges to `output_x`, `output_y`; every other field unchanged.
pub open spec fn transformed_state(
    s: PenState,
    max_x: i32,
    max_y: i32,
    output_x: i32,
    output_y: i32,
    rotate: u16,
) -> PenState {
    let t = rotated_point(s.x as int, s.y as int, max_x as int, max_y as int, rotate);
    PenState {
        x: scaled(t.0, t.2, output_x as int) as i32,
        y: scaled(t.1, t.3, output_y as int) as i32,
        ..s
    }
}

/// Maps `value` on `0..=source_max` to `0..=target_max`.
pub fn scale_axis(value: i32, source_max: i32, target_max: i32) -> (r: i32)
    requires
        source_max > 0,
    ensures
        r == scaled(value as int, source_max as int, target_max as int),
        target_max >= 0 ==> 0 <= r <= target_max,
        target_max < 0 ==> target_max <= r <= 0,
{
    let c: i32 = if value < 0 {
        0
    } else if value > source_max {
        source_max
    } else {
        value
    };
    proof {
        let ci = c as int;
        let ti = target_max as int;
        assert(-0x4000_0000_0000_0000 <= ci * ti <= 0x4000_0000_0000_0000) by (nonlinear_arith)
            requires 0 <= ci <= 0x8000_0000, -0x8000_0000 <= ti <= 0x8000_0000;
    }
    let p: i64 = c as i64 * target_max as i64;
    let q: i64 = p / source_max as i64;
    proof {
        let pi = p as int;
        let si = source_max as int;
        let ti = target_max as int;
        let ci = c as int;
        assert(pi == ci * ti);
        if pi >= 0 {
            assert(0 <= pi / si) by (nonlinear_arith)
                requires pi >= 0, si > 0;
            if ti >= 0 {
                assert(pi <= si * ti) by (nonlinear_arith)
                    requires pi == ci * ti, 0 <= ci <= si, ti >= 0;
                assert(pi / si <= ti) by (nonlinear_arith)
                    requires pi <= si * ti, si > 0, pi >= 0;
            } else {
                assert(pi == 0) by (nonlinear_arith)
                    requires pi == ci * ti, 0 <= ci, ti < 0, pi >= 0;
            }
        } else {
            assert(ti < 0) by (nonlinear_arith)
                requires pi == ci * ti, 0 <= ci, pi < 0;
            assert(-pi <= si * (-ti)) by (nonlinear_arith)
                requires pi == ci * ti, 0 <= ci <= si, ti < 0;
            assert((-pi) / si <= -ti) by (nonlinear_arith)
                requires -pi <= si * (-ti), si > 0, -pi >= 0;
            assert((-pi) / si >= 0) by (nonlinear_arith)
                requires -pi >= 0, si > 0;
        }
    }
    q as i32
}

impl PenState {
    /// Applies one event; returns whether it ends a report.
    pub fn apply(&mut self, event: InputEvent) -> (r: bool)
        ensures
            r == is_report_end(event),
            *final(self) == applied(*old(self), event),
    {
        let v = event.value;
        if event.kind == 3 && event.code == 0 {
            self.x = v;
        } else if event.kind == 3 && event.code == 1 {
            self.y = v;
        } else if event.kind == 3 && event.code == 24 {
            self.pressure = v;
        } else if event.kind == 3 && event.code == 25 {
            self.distance = v;
        } else if event.kind == 3 && event.code == 26 {
            self.tilt_x = v;
        } else if event.kind == 3 && event.code == 27 {
            self.tilt_y = v;
        } else if event.kind == 1 && event.code == 320 {
            self.tool_pen = v != 0;
        } else if event.kind == 1 && event.code == 321 {
            self.eraser = v != 0;
        } else if event.kind == 1 && event.code == 330 {
            self.touch = v != 0;
        } else if event.kind == 1 && event.code == 331 {
            self.stylus1 = v != 0;
        } else if event.kind == 1 && event.code == 332 {
            self.stylus2 = v != 0;
        } else if event.kind == 0 && event.code == 0 {
            return true;
        }
        false
    }

    /// The state turned by `rotate` degrees and scaled to the output ranges.
    pub fn transformed(self, max_x: i32, max_y: i32, output_x: i32, output_y: i32, rotate: u16) -> (r: Self)
        requires
            transform_fits(self, max_x, max_y, rotate),
        ensures
            r == transformed_state(self, max_x, max_y, output_x, output_y, rotate),
            output_x >= 0 ==> 0 <= r.x <= output_x,
            output_y >= 0 ==> 0 <= r.y <= output_y,
    {
        let (x, y, rotated_max_x, rotated_max_y) = if rotate == 0 {
            (self.x, self.y, max_x, max_y)
        } else if rotate == 90 {
            (max_y - self.y, self.x, max_y, max_x)
        } else if rotate == 180 {
            (max_x - self.x, max_y - self.y, max_x, max_y)
        } else {
            (self.y, max_x - self.x, max_y, max_x)
        };
        PenState {
            x: scale_axis(x, rotated_max_x, output_x),
            y: scale_axis(y, rotated_max_y, output_y),
            ..self
        }
    }

    /// Whether the pen or the eraser is near the tablet.
    pub fn in_range(self) -> (r: bool)
        ensures
            r == (self.tool_pen || self.eraser),
    {
        self.tool_pen || self.eraser
    }
}

// ---------------------------------------------------------------------------
// evdev records
// ---------------------------------------------------------------------------

/// The event in the last 8 bytes of a record: type and code as
/// little-endian `u16`, value as little-endian two's-complement `i32`.
pub open spec fn decoded_event(b: Seq<u8>) -> InputEvent {
    let n = b.len() as int;
    let u = b[n - 4] as int + b[n - 3] as int * 256 + b[n - 2] as int * 65536 + b[n - 1] as int
        * 16777216;
    InputEvent {
        kind: (b[n - 8] as int + b[n - 7] as int * 256) as u16,
        code: (b[n - 6] as int + b[n - 5] as int * 256) as u16,
        value: (if u >= 0x8000_0000 {
            u - 0x1_0000_0000
        } else {
            u
        }) as i32,
    }
}

/// A record that ended before it was complete.
#[derive(Debug, Clone, Copy, PartialEq, Eq, Structural)]
pub struct PartialRecord {
    pub filled: usize,
    pub record_size: usize,
}

/// What reading one record of `record_size` bytes from a stream that holds
/// `stream` gives: nothing at the end of the stream, an error when the
/// stream ends inside the record, else the event of the record's first
/// `record_size` bytes.
pub open spec fn read_result(stream: Seq<u8>, record_size: nat) -> Result<
    Option<InputEvent>,
    PartialRecord,
> {
    if stream.len() == 0 {
        Ok(None)
    } else if stream.len() < record_size {
        Err(PartialRecord { filled: stream.len() as usize, record_size: record_size as usize })
    } else {
        Ok(Some(decoded_event(stream.subrange(0, record_size as int))))
    }
}

fn le_u16(lo: u8, hi: u8) -> (r: u16)
    ensures
        r == lo as int + hi as int * 256,
{
    lo as u16 + hi as u16 * 256
}

/// Reads one evdev record of `record_size` bytes from the front of
/// `stream`, the bytes that a stream holds. A record shorter than an event
/// can only be read where the stream ends before it is complete.
pub fn read_event(stream: &[u8], record_size: usize) -> (r: Result<Option<InputEvent>, PartialRecord>)
    requires
        record_size >= 8 || stream@.len() < record_size,
    ensures
        r == read_result(stream@, record_size as nat),
{
    let n = stream.len();
    if n == 0 {
        return Ok(None);
    }
    if n < record_size {
        return Err(PartialRecord { filled: n, record_size });
    }
    let ghost rec = stream@.subrange(0, record_size as int);
    let o = record_size - 8;
    let kind = le_u16(stream[o], stream[o + 1]);
    let code = le_u16(stream[o + 2], stream[o + 3]);
    let u: u64 = stream[o + 4] as u64 + stream[o + 5] as u64 * 256 + stream[o + 6] as u64 * 65536
        + stream[o + 7] as u64 * 16777216;
    let value: i32 = if u >= 0x8000_0000 {
        (u as i64 - 0x1_0000_0000) as i32
    } else {
        u as i32
    };
    proof {
        assert(rec[record_size - 8] == stream@[o as int]);
        assert(rec[record_size - 7] == stream@[o + 1]);
        assert(rec[record_size - 6] == stream@[o + 2]);
        assert(rec[record_size - 5] == stream@[o + 3]);
        assert(rec[record_size - 4] == stream@[o + 4]);
        assert(rec[record_size - 3] == stream@[o + 5]);
        assert(rec[record_size - 2] == stream@[o + 6]);
        assert(rec[record_size - 1] == stream@[o + 7]);
    }
    Ok(Some(InputEvent { kind, code, value }))
}

impl PartialRecord {
    /// The error's text: `partial evdev record (FILLED/SIZE bytes)`.
    pub fn message(&self) -> (r: String)
        ensures
            r@ == "partial evdev record ("@ + decimal(self.filled as nat) + "/"@ + decimal(
                self.record_size as nat,
            ) + " bytes)"@,
    {
        let mut s = String::from_str("partial evdev record (");
        push_decimal(&mut s, self.filled as u64);
        s.append("/");
        push_decimal(&mut s, self.record_size as u64);
        s.append(" bytes)");
        s
    }
}

} // verus!
