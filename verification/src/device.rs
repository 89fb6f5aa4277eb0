use vstd::prelude::*;

use crate::args::Args;
use crate::text::{
    char_index, chars_of, contains_str, debug_quoted, debug_string, find_char, has_sub,
    lemma_trailing, lower, lower_chars_of, range_eq_str, trim, trim_bounds, trim_end_by,
};

verus! {

/// The tablet at the other end of a session, as its header describes it.
#[derive(Debug, Clone)]
pub struct DeviceInfo {
    pub model: String,
    pub path: String,
    /// Bytes per evdev record: 16 on a 32-bit tablet, 24 on a 64-bit one.
    pub event_size: usize,
    pub max_x: i32,
    pub max_y: i32,
    pub max_pressure: i32,
}

/// The ranges `(max_x, max_y, max_pressure)` of the pen digitizer of the
/// models that are known by name (matched without regard to ASCII case).
pub open spec fn profile(model: Seq<char>) -> Option<(i32, i32, i32)> {
    let m = lower(model);
    if has_sub(m, "chiappa"@) {
        Some((6760, 11960, 4096))
    } else if has_sub(m, "tatsu"@) {
        Some((9620, 13000, 4096))
    } else if has_sub(m, "ferrari"@) || trim(m) == "remarkable pro"@ {
        Some((11180, 15340, 4096))
    } else if has_sub(m, "remarkable 1.0"@) || has_sub(m, "remarkable 2.0"@) {
        Some((20967, 15725, 4095))
    } else {
        None
    }
}

/// Whether the model (without regard to ASCII case) is a reMarkable 1 or 2,
/// whose native coordinates are landscape.
pub open spec fn is_rm1_or_rm2(model: Seq<char>) -> bool {
    has_sub(lower(model), "remarkable 1.0"@) || has_sub(lower(model), "remarkable 2.0"@)
}

/// Whether the model (without regard to ASCII case) has a rotation sensor
/// that the tablet side can read.
pub open spec fn has_rotation_sensor(model: Seq<char>) -> bool {
    let m = lower(model);
    has_sub(m, "ferrari"@) || has_sub(m, "chiappa"@) || has_sub(m, "tatsu"@) || trim(m)
        == "remarkable pro"@
}

/// Whether `lower(v)[lo..hi]`, trimmed, is "remarkable pro".
fn trimmed_is_remarkable_pro(m: &Vec<char>) -> (r: bool)
    ensures
        r == (trim(m@) == "remarkable pro"@),
{
    let (lo, hi) = trim_bounds(m);
    range_eq_str(m, lo, hi, "remarkable pro")
}

/// The digitizer ranges of a known model.
pub fn profile_for(model: &str) -> (r: Option<(i32, i32, i32)>)
    ensures
        r == profile(model@),
{
    let m = lower_chars_of(model);
    if contains_str(&m, "chiappa") {
        Some((6760, 11960, 4096))
    } else if contains_str(&m, "tatsu") {
        Some((9620, 13000, 4096))
    } else if contains_str(&m, "ferrari") || trimmed_is_remarkable_pro(&m) {
        Some((11180, 15340, 4096))
    } else if contains_str(&m, "remarkable 1.0") || contains_str(&m, "remarkable 2.0") {
        Some((20967, 15725, 4095))
    } else {
        None
    }
}

// ---------------------------------------------------------------------------
// The session header
// ---------------------------------------------------------------------------

pub open spec fn is_line_end(c: char) -> bool {
    c == '\r' || c == '\n'
}

/// The header line without its trailing carriage returns and line feeds.
pub open spec fn header_line(h: Seq<char>) -> Seq<char> {
    trim_end_by(h, |c: char| is_line_end(c))
}

/// `splitn(4, '\t')` when it gives four fields: the text before the first
/// tab, between the first and the second, between the second and the
/// third, and the rest.
pub open spec fn four_fields(t: Seq<char>) -> Option<(Seq<char>, Seq<char>, Seq<char>, Seq<char>)> {
    let a = char_index(t, '\t');
    if a >= t.len() {
        None
    } else {
        let r1 = t.subrange(a + 1, t.len() as int);
        let b = char_index(r1, '\t');
        if b >= r1.len() {
            None
        } else {
            let r2 = r1.subrange(b + 1, r1.len() as int);
            let c = char_index(r2, '\t');
            if c >= r2.len() {
                None
            } else {
                Some(
                    (
                        t.subrange(0, a),
                        r1.subrange(0, b),
                        r2.subrange(0, c),
                        r2.subrange(c + 1, r2.len() as int),
                    ),
                )
            }
        }
    }
}

/// The model name of the fourth header field: without trailing NULs.
pub open spec fn model_name(f: Seq<char>) -> Seq<char> {
    trim_end_by(f, |c: char| c == '\0')
}

/// The error for a header that is not `RAT1\tBITS\tPATH\tMODEL`.
pub open spec fn invalid_header_error(h: Seq<char>) -> Seq<char> {
    "invalid remote header: "@ + debug_quoted(h)
}

/// The error for an unknown model without explicit ranges.
pub open spec fn unknown_model_error(model: Seq<char>) -> Seq<char> {
    "unknown model "@ + debug_quoted(model) + "; pass --max-x, --max-y, and --max-pressure"@
}

/// `a` or, when it is `None`, `b`.
pub open spec fn or_else<T>(a: Option<T>, b: Option<T>) -> Option<T> {
    match a {
        Some(x) => Some(x),
        None => b,
    }
}

pub open spec fn profile_part(p: Option<(i32, i32, i32)>, i: int) -> Option<i32> {
    match p {
        Some(t) => Some(
            if i == 0 {
                t.0
            } else if i == 1 {
                t.1
            } else {
                t.2
            },
        ),
        None => None,
    }
}

/// What a header line gives, with the ranges of `args` before those of
/// the model's profile: `Ok((model, path, event_size, max_x, max_y,
/// max_pressure))`, or the error's text.
pub open spec fn header_result(
    h: Seq<char>,
    max_x: Option<i32>,
    max_y: Option<i32>,
    max_pressure: Option<i32>,
) -> Result<(Seq<char>, Seq<char>, usize, i32, i32, i32), Seq<char>> {
    match four_fields(header_line(h)) {
        None => Err(invalid_header_error(h)),
        Some((f0, f1, f2, f3)) => if f0 != "RAT1"@ {
            Err(invalid_header_error(h))
        } else if f1 != "32"@ && f1 != "64"@ {
            Err("unsupported remote word size: "@ + f1)
        } else {
            let size: usize = if f1 == "32"@ {
                16
            } else {
                24
            };
            let model = model_name(f3);
            let p = profile(model);
            let mx = or_else(max_x, profile_part(p, 0));
            let my = or_else(max_y, profile_part(p, 1));
            let mp = or_else(max_pressure, profile_part(p, 2));
            if mx is Some && my is Some && mp is Some {
                Ok((model, f2, size, mx->0, my->0, mp->0))
            } else {
                Err(unknown_model_error(model))
            }
        },
    }
}

/// Whether `info` is what `header_result` describes.
pub open spec fn describes(
    info: DeviceInfo,
    d: (Seq<char>, Seq<char>, usize, i32, i32, i32),
) -> bool {
    &&& info.model@ == d.0
    &&& info.path@ == d.1
    &&& info.event_size == d.2
    &&& info.max_x == d.3
    &&& info.max_y == d.4
    &&& info.max_pressure == d.5
}

/// Finds the header fields in `v`: `(a, b, c, e)` such that the fields are
/// `v[..a]`, `v[a+1..b]`, `v[b+1..c]` and `v[c+1..e]`.
fn split_header(v: &Vec<char>) -> (r: Option<(usize, usize, usize, usize)>)
    ensures
        match four_fields(header_line(v@)) {
            None => r is None,
            Some(f) => r is Some && ({
                let (a, b, c, e) = r->0;
                &&& a < b < c < e <= v@.len()
                &&& f.0 == v@.subrange(0, a as int)
                &&& f.1 == v@.subrange(a + 1, b as int)
                &&& f.2 == v@.subrange(b + 1, c as int)
                &&& f.3 == v@.subrange(c + 1, e as int)
            }),
        },
{
    let ghost line_end = |c: char| is_line_end(c);
    let mut e: usize = v.len();
    while e > 0 && (v[e - 1] == '\r' || v[e - 1] == '\n')
        invariant
            e <= v@.len(),
            forall|k: int| e <= k < v@.len() ==> is_line_end(#[trigger] v@[k]),
        decreases e,
    {
        e = e - 1;
    }
    let ghost t = header_line(v@);
    proof {
        lemma_trailing(v@, line_end, e as int);
        assert(t =~= v@.subrange(0, e as int));
    }
    let a = find_char(v, 0, e, '\t');
    if a >= e {
        return None;
    }
    proof {
        assert(t.subrange(a + 1, t.len() as int) =~= v@.subrange(a + 1, e as int));
    }
    let b = find_char(v, a + 1, e, '\t');
    if b >= e {
        return None;
    }
    let c = find_char(v, b + 1, e, '\t');
    proof {
        let r1 = t.subrange(a + 1, t.len() as int);
        let r2 = r1.subrange(b - a, r1.len() as int);
        assert(r2 =~= v@.subrange(b + 1, e as int));
    }
    if c >= e {
        return None;
    }
    proof {
        let r1 = t.subrange(a + 1, t.len() as int);
        let r2 = r1.subrange(b - a, r1.len() as int);
        assert(t.subrange(0, a as int) =~= v@.subrange(0, a as int));
        assert(r1.subrange(0, b - a - 1) =~= v@.subrange(a + 1, b as int));
        assert(r2.subrange(0, c - b - 1) =~= v@.subrange(b + 1, c as int));
        assert(r2.subrange(c - b, r2.len() as int) =~= v@.subrange(c + 1, e as int));
    }
    Some((a, b, c, e))
}

/// The end of `v[lo..hi]` without its trailing NULs.
fn end_without_nuls(v: &Vec<char>, lo: usize, hi: usize) -> (m: usize)
    requires
        lo <= hi <= v@.len(),
    ensures
        lo <= m <= hi,
        model_name(v@.subrange(lo as int, hi as int)) == v@.subrange(lo as int, m as int),
{
    let mut m: usize = hi;
    while m > lo && v[m - 1] == '\0'
        invariant
            lo <= m <= hi <= v@.len(),
            forall|k: int| m <= k < hi ==> #[trigger] v@[k] == '\0',
        decreases m,
    {
        m = m - 1;
    }
    proof {
        let f = v@.subrange(lo as int, hi as int);
        let nul = |x: char| x == '\0';
        assert forall|k: int| m - lo <= k < f.len() implies nul(#[trigger] f[k]) by {
            assert(f[k] == v@[k + lo]);
        }
        if m > lo {
            assert(f[m - lo - 1] == v@[m - 1]);
        }
        lemma_trailing(f, nul, m - lo);
        assert(model_name(f) =~= v@.subrange(lo as int, m as int));
    }
    m
}

/// The explicit range, else the one of the profile.
fn range_or(explicit: Option<i32>, profile: Option<(i32, i32, i32)>, i: usize) -> (r: Option<i32>)
    requires
        i < 3,
    ensures
        r == or_else(explicit, profile_part(profile, i as int)),
{
    match explicit {
        Some(x) => Some(x),
        None => match profile {
            Some(p) => Some(
                if i == 0 {
                    p.0
                } else if i == 1 {
                    p.1
                } else {
                    p.2
                },
            ),
            None => None,
        },
    }
}

impl DeviceInfo {
    /// Reads the header line `RAT1\tBITS\tPATH\tMODEL` that the tablet
    /// side prints first.
    pub fn from_header(header: &str, args: &Args) -> (r: Result<Self, String>)
        ensures
            match header_result(header@, args.max_x, args.max_y, args.max_pressure) {
                Ok(d) => r is Ok && describes(r->Ok_0, d),
                Err(e) => r is Err && r->Err_0@ == e,
            },
    {
        let v = chars_of(header);
        let (a, b, c, e) = match split_header(&v) {
            Some(f) => f,
            None => {
                return Err(invalid_header(header));
            },
        };
        if !range_eq_str(&v, 0, a, "RAT1") {
            return Err(invalid_header(header));
        }
        let event_size: usize = if range_eq_str(&v, a + 1, b, "32") {
            16
        } else if range_eq_str(&v, a + 1, b, "64") {
            24
        } else {
            let mut msg = String::from_str("unsupported remote word size: ");
            let bits = header.substring_char(a + 1, b);
            msg.append(bits);
            return Err(msg);
        };
        let m = end_without_nuls(&v, c + 1, e);
        let model = header.substring_char(c + 1, m);
        let profile = profile_for(model);
        let max_x = range_or(args.max_x, profile, 0);
        let max_y = range_or(args.max_y, profile, 1);
        let max_pressure = range_or(args.max_pressure, profile, 2);
        match (max_x, max_y, max_pressure) {
            (Some(max_x), Some(max_y), Some(max_pressure)) => {
                let path = header.substring_char(b + 1, c);
                Ok(DeviceInfo {
                    model: String::from_str(model),
                    path: String::from_str(path),
                    event_size,
                    max_x,
                    max_y,
                    max_pressure,
                })
            },
            _ => {
                let mut msg = String::from_str("unknown model ");
                let q = debug_string(model);
                msg.append(q.as_str());
                msg.append("; pass --max-x, --max-y, and --max-pressure");
                Err(msg)
            },
        }
    }

    /// The output ranges for a rotation: the axes change places at 90 and
    /// 270 degrees.
    pub fn output_ranges(&self, rotate: u16) -> (r: (i32, i32))
        ensures
            r == (if rotate == 90 || rotate == 270 {
                (self.max_y, self.max_x)
            } else {
                (self.max_x, self.max_y)
            }),
    {
        if rotate == 90 || rotate == 270 {
            (self.max_y, self.max_x)
        } else {
            (self.max_x, self.max_y)
        }
    }

    /// The rotation that shows the tablet in landscape: 0 for a reMarkable 1
    /// or 2, 90 for the Paper Pro family and any other model.
    pub fn landscape_rotation(&self) -> (r: u16)
        ensures
            r == (if is_rm1_or_rm2(self.model@) {
                0u16
            } else {
                90u16
            }),
    {
        let m = lower_chars_of(self.model.as_str());
        if contains_str(&m, "remarkable 1.0") || contains_str(&m, "remarkable 2.0") {
            0
        } else {
            90
        }
    }

    /// Whether the tablet side can follow the model's rotation sensor.
    pub fn supports_auto_rotation(&self) -> (r: bool)
        ensures
            r == has_rotation_sensor(self.model@),
    {
        let m = lower_chars_of(self.model.as_str());
        contains_str(&m, "ferrari") || contains_str(&m, "chiappa") || contains_str(&m, "tatsu")
            || trimmed_is_remarkable_pro(&m)
    }
}

/// The error for a malformed header.
fn invalid_header(header: &str) -> (r: String)
    ensures
        r@ == invalid_header_error(header@),
{
    let mut msg = String::from_str("invalid remote header: ");
    let q = debug_string(header);
    msg.append(q.as_str());
    msg
}

} // verus!
