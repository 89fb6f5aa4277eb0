use vstd::prelude::*;

use crate::device::{has_rotation_sensor, DeviceInfo};
use crate::pen::{
    applied, is_report_end, transform_fits, transformed_state, valid_rotation, InputEvent,
    PenState, pen_at_rest,
};
use crate::rotation::{effective_rotation, RotationMode};
use crate::text::{
    char_index, chars_of, decimal, find_char, has_prefix, parse_i32, parse_i32_spec,
    push_decimal, starts_with_str,
};

verus! {

/// A connected session: the tablet, the rotation mode, the output ranges
/// chosen when it started, and the pen as the reports so far left it.
pub struct Session {
    pub mode: RotationMode,
    pub info: DeviceInfo,
    pub output_x: i32,
    pub output_y: i32,
    pub state: PenState,
}

/// The error for automatic rotation on a model without a sensor.
pub open spec fn no_sensor_error(model: Seq<char>) -> Seq<char> {
    model + " has no supported rotation sensor; use --rotate"@
}

/// The output ranges for a rotation (`DeviceInfo::output_ranges`).
pub open spec fn ranges_for(max_x: i32, max_y: i32, rotate: u16) -> (i32, i32) {
    if rotate == 90 || rotate == 270 {
        (max_y, max_x)
    } else {
        (max_x, max_y)
    }
}

/// `Display` of an `i32`.
pub open spec fn signed_decimal(v: i32) -> Seq<char> {
    if v < 0 {
        "-"@ + decimal((-(v as int)) as nat)
    } else {
        decimal(v as nat)
    }
}

/// Appends `v` as `Display` writes it.
pub fn push_i32(out: &mut String, v: i32)
    ensures
        final(out)@ == old(out)@ + signed_decimal(v),
{
    if v < 0 {
        out.append("-");
        let m: u64 = (-(v as i64)) as u64;
        push_decimal(out, m);
        proof {
            assert(final(out)@ =~= old(out)@ + signed_decimal(v));
        }
    } else {
        push_decimal(out, v as u64);
    }
}

/// The rotation for the pen's next report: the sensed one (`u16::MAX`
/// while none) must be a supported rotation.
pub open spec fn valid_sensed(sensed: u16) -> bool {
    sensed == u16::MAX || valid_rotation(sensed)
}

impl Session {
    /// Starts a session with the tablet that the header described, or
    /// refuses automatic rotation for a model without a sensor.
    pub fn start(mode: RotationMode, info: DeviceInfo) -> (r: Result<Session, String>)
        ensures
            (mode == RotationMode::Auto && !has_rotation_sensor(info.model@)) ==> r is Err
                && r->Err_0@ == no_sensor_error(info.model@),
            !(mode == RotationMode::Auto && !has_rotation_sensor(info.model@)) ==> r is Ok && ({
                let s = r->Ok_0;
                let o = ranges_for(
                    info.max_x,
                    info.max_y,
                    effective_rotation(mode, info.model@, u16::MAX),
                );
                &&& s.mode == mode
                &&& s.info == info
                &&& s.output_x == o.0
                &&& s.output_y == o.1
                &&& s.state == pen_at_rest()
            }),
    {
        if mode == RotationMode::Auto && !info.supports_auto_rotation() {
            let mut msg = String::from_str(info.model.as_str());
            msg.append(" has no supported rotation sensor; use --rotate");
            return Err(msg);
        }
        let fixed = mode.rotation(&info, u16::MAX);
        let (output_x, output_y) = info.output_ranges(fixed);
        Ok(Session { mode, info, output_x, output_y, state: PenState::default() })
    }

    /// The rotation used until the sensor reports.
    pub fn fixed_rotation(&self) -> (r: u16)
        ensures
            r == effective_rotation(self.mode, self.info.model@, u16::MAX),
    {
        self.mode.rotation(&self.info, u16::MAX)
    }

    /// The line printed when the session starts.
    pub fn connected_message(&self) -> (r: String)
        ensures
            r@ == "connected: "@ + self.info.model@ + " ("@ + self.info.path@ + ", "@ + decimal(
                self.info.event_size as nat,
            ) + " bytes/event, "@ + signed_decimal(self.output_x) + "x"@ + signed_decimal(
                self.output_y,
            ) + ", pressure "@ + signed_decimal(self.info.max_pressure) + ", rotate "@ + (
            if self.mode == RotationMode::Auto {
                "auto"@
            } else {
                decimal(effective_rotation(self.mode, self.info.model@, u16::MAX) as nat)
            }) + ")"@,
    {
        let mut s = String::from_str("connected: ");
        s.append(self.info.model.as_str());
        s.append(" (");
        s.append(self.info.path.as_str());
        s.append(", ");
        push_decimal(&mut s, self.info.event_size as u64);
        s.append(" bytes/event, ");
        push_i32(&mut s, self.output_x);
        s.append("x");
        push_i32(&mut s, self.output_y);
        s.append(", pressure ");
        push_i32(&mut s, self.info.max_pressure);
        s.append(", rotate ");
        if self.mode == RotationMode::Auto {
            s.append("auto");
        } else {
            let r = self.fixed_rotation();
            push_decimal(&mut s, r as u64);
        }
        s.append(")");
        s
    }

    /// Whether `handle` can take `event`: a report that it ends can be
    /// turned and scaled without an arithmetic overflow.
    pub open spec fn can_take(&self, event: InputEvent, sensed: u16) -> bool {
        let next = applied(self.state, event);
        let rotate = effective_rotation(self.mode, self.info.model@, sensed);
        is_report_end(event) ==> transform_fits(next, self.info.max_x, self.info.max_y, rotate)
    }

    /// Whether `handle` can take `event` (see `can_take`).
    pub fn accepts(&self, event: InputEvent, sensed: u16) -> (r: bool)
        requires
            valid_sensed(sensed),
        ensures
            r == self.can_take(event, sensed),
    {
        if !(event.kind == 0 && event.code == 0) {
            return true;
        }
        let mut next = self.state;
        next.apply(event);
        let rotate = self.mode.rotation(&self.info, sensed);
        let rotation_ok = rotate == 0 || rotate == 90 || rotate == 180 || rotate == 270;
        if !rotation_ok || self.info.max_x <= 0 || self.info.max_y <= 0 {
            return false;
        }
        let y_ok = if rotate == 90 || rotate == 180 {
            let d: i64 = self.info.max_y as i64 - next.y as i64;
            i32::MIN as i64 <= d && d <= i32::MAX as i64
        } else {
            true
        };
        let x_ok = if rotate == 180 || rotate == 270 {
            let d: i64 = self.info.max_x as i64 - next.x as i64;
            i32::MIN as i64 <= d && d <= i32::MAX as i64
        } else {
            true
        };
        y_ok && x_ok
    }

    /// Takes one event from the tablet. At the end of a report, returns the
    /// rotation in effect (`sensed` is the latest sensor rotation, or
    /// `u16::MAX`) and the pen state to send to the output: turned by it
    /// and scaled to the session's output ranges.
    pub fn handle(&mut self, event: InputEvent, sensed: u16) -> (r: Option<(u16, PenState)>)
        requires
            valid_sensed(sensed),
            old(self).can_take(event, sensed),
        ensures
            final(self).mode == old(self).mode,
            final(self).info == old(self).info,
            final(self).output_x == old(self).output_x,
            final(self).output_y == old(self).output_y,
            final(self).state == applied(old(self).state, event),
            !is_report_end(event) ==> r is None,
            is_report_end(event) ==> ({
                let rotate = effective_rotation(old(self).mode, old(self).info.model@, sensed);
                r == Some(
                    (
                        rotate,
                        transformed_state(
                            final(self).state,
                            old(self).info.max_x,
                            old(self).info.max_y,
                            old(self).output_x,
                            old(self).output_y,
                            rotate,
                        ),
                    ),
                )
            }),
    {
        if self.state.apply(event) {
            let rotate = self.mode.rotation(&self.info, sensed);
            let out = self.state.transformed(
                self.info.max_x,
                self.info.max_y,
                self.output_x,
                self.output_y,
                rotate,
            );
            Some((rotate, out))
        } else {
            None
        }
    }
}

/// The error when ssh ends before the header: what it printed, one line
/// after another, or else its exit status.
pub open spec fn ended_error(errors: Seq<Seq<char>>, status: Seq<char>) -> Seq<char> {
    if errors.len() == 0 {
        "SSH exited with "@ + status
    } else {
        joined_lines(errors)
    }
}

/// The lines joined with line feeds.
pub open spec fn joined_lines(lines: Seq<Seq<char>>) -> Seq<char>
    decreases lines.len(),
{
    if lines.len() == 0 {
        Seq::empty()
    } else if lines.len() == 1 {
        lines[0]
    } else {
        joined_lines(lines.drop_last()) + "\n"@ + lines.last()
    }
}

/// The error for a session whose ssh ended before the header; `status` is
/// the exit status as `Display` writes it.
pub fn ended_before_header(errors: &Vec<String>, status: &str) -> (r: String)
    ensures
        r@ == ended_error(crate::args::words_view(errors@), status@),
{
    let ghost w = crate::args::words_view(errors@);
    if errors.len() == 0 {
        let mut s = String::from_str("SSH exited with ");
        s.append(status);
        return s;
    }
    let mut s = String::from_str(errors[0].as_str());
    proof {
        assert(w.subrange(0, 1).drop_last() =~= Seq::<Seq<char>>::empty());
        assert(joined_lines(w.subrange(0, 1)) == w[0]);
    }
    let mut i: usize = 1;
    while i < errors.len()
        invariant
            w == crate::args::words_view(errors@),
            1 <= i <= errors@.len(),
            s@ == joined_lines(w.subrange(0, i as int)),
        decreases errors@.len() - i,
    {
        s.append("\n");
        s.append(errors[i].as_str());
        proof {
            assert(w.subrange(0, i + 1).drop_last() =~= w.subrange(0, i as int));
            assert(w[i as int] == errors@[i as int]@);
        }
        i = i + 1;
    }
    proof {
        assert(w.subrange(0, i as int) =~= w);
    }
    s
}

// ---------------------------------------------------------------------------
// Lines that ssh prints on standard error
// ---------------------------------------------------------------------------

/// The fields of `s` between tabs (`str::split('\t')`).
pub open spec fn tab_fields(s: Seq<char>) -> Seq<Seq<char>>
    decreases s.len(),
{
    let a = char_index(s, '\t');
    if a >= s.len() {
        seq![s]
    } else {
        seq![s.subrange(0, a)] + tab_fields(s.subrange(a + 1, s.len() as int))
    }
}

/// The fields that `str::parse::<i32>` reads, in order.
pub open spec fn numbers(fields: Seq<Seq<char>>) -> Seq<i32>
    decreases fields.len(),
{
    if fields.len() == 0 {
        Seq::empty()
    } else {
        (match parse_i32_spec(fields[0]) {
            Some(v) => seq![v],
            None => Seq::empty(),
        }) + numbers(fields.drop_first())
    }
}

/// The rotation sensor reading of a line `RATACCEL\t...`: the first two
/// fields after the prefix that are numbers.
pub open spec fn accel_reading(line: Seq<char>) -> Option<(i32, i32)> {
    if has_prefix(line, "RATACCEL\t"@) {
        let ns = numbers(tab_fields(line.subrange(9, line.len() as int)));
        if ns.len() >= 2 {
            Some((ns[0], ns[1]))
        } else {
            None
        }
    } else {
        None
    }
}

proof fn lemma_numbers_concat(a: Seq<Seq<char>>, b: Seq<Seq<char>>)
    ensures
        numbers(a + b) == numbers(a) + numbers(b),
    decreases a.len(),
{
    if a.len() == 0 {
        assert(a + b =~= b);
    } else {
        assert((a + b).drop_first() =~= a.drop_first() + b);
        lemma_numbers_concat(a.drop_first(), b);
        assert((a + b)[0] == a[0]);
        assert(numbers(a + b) =~= numbers(a) + numbers(b));
    }
}

/// Reads a rotation sensor line: the first two numbers after
/// `RATACCEL\t`, or `None` for any other line.
pub fn parse_accel_line(line: &str) -> (r: Option<(i32, i32)>)
    ensures
        r == accel_reading(line@),
{
    let v = chars_of(line);
    if !starts_with_str(&v, "RATACCEL\t") {
        return None;
    }
    proof {
        reveal_strlit("RATACCEL\t");
    }
    let n = v.len();
    let ghost rest = v@.subrange(9, n as int);
    let mut found: Vec<i32> = Vec::new();
    let mut i: usize = 9;
    // Each pass reads the field that starts at `i`.
    loop
        invariant
            n == v@.len(),
            v@ == line@,
            9 <= i <= n,
            has_prefix(line@, "RATACCEL\t"@),
            rest == v@.subrange(9, n as int),
            found@.len() < 2,
            numbers(tab_fields(rest)) == found@ + numbers(tab_fields(v@.subrange(i as int, n as int))),
        decreases n - i,
    {
        let j = find_char(&v, i, n, '\t');
        let field = line.substring_char(i, j);
        let parsed = parse_i32(field);
        let ghost t = v@.subrange(i as int, n as int);
        let ghost piece: Seq<i32> = match parsed {
            Some(x) => seq![x],
            None => Seq::empty(),
        };
        let ghost before = found@;
        proof {
            assert(char_index(t, '\t') == j - i);
            assert(t.subrange(0, j - i) =~= field@);
            let single = seq![field@];
            assert(single.drop_first() =~= Seq::<Seq<char>>::empty());
            assert(numbers(single.drop_first()) =~= Seq::<i32>::empty());
            assert(numbers(single) =~= piece);
            if j < n {
                let r = v@.subrange(j + 1, n as int);
                assert(t.subrange(j - i + 1, t.len() as int) =~= r);
                assert(tab_fields(t) == single + tab_fields(r));
                lemma_numbers_concat(single, tab_fields(r));
                assert(numbers(tab_fields(t)) == piece + numbers(tab_fields(r)));
            } else {
                assert(tab_fields(t) == single);
                assert(numbers(tab_fields(t)) == piece);
            }
        }
        match parsed {
            Some(x) => {
                found.push(x);
            },
            None => {},
        }
        proof {
            assert(found@ =~= before + piece);
        }
        if found.len() == 2 {
            proof {
                if j < n {
                    assert(numbers(tab_fields(rest)) =~= found@ + numbers(
                        tab_fields(v@.subrange(j + 1, n as int)),
                    ));
                } else {
                    assert(numbers(tab_fields(rest)) =~= found@);
                }
                let ns = numbers(tab_fields(rest));
                assert(ns[0] == found@[0] && ns[1] == found@[1]);
                assert(rest == line@.subrange(9, line@.len() as int));
                assert(has_prefix(line@, "RATACCEL\t"@));
                assert(ns.len() >= 2);
                assert(accel_reading(line@) == Some((found@[0], found@[1])));
            }
            return Some((found[0], found[1]));
        }
        if j >= n {
            proof {
                assert(numbers(tab_fields(rest)) =~= found@);
            }
            return None;
        }
        proof {
            assert(numbers(tab_fields(rest)) =~= found@ + numbers(
                tab_fields(v@.subrange(j + 1, n as int)),
            ));
        }
        i = j + 1;
    }
}

/// Keeps an error line, with at most the 8 latest.
pub fn keep_error_line(errors: &mut Vec<String>, line: String)
    ensures
        old(errors)@.len() < 8 ==> final(errors)@ == old(errors)@.push(line),
        old(errors)@.len() >= 8 ==> final(errors)@ == old(errors)@.push(line).drop_first(),
{
    errors.push(line);
    if errors.len() > 8 {
        errors.remove(0);
    }
}

} // verus!
