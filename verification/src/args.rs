use vstd::prelude::*;

use crate::pen::valid_rotation;
use crate::text::{
    all_digits, char_index, chars_of, debug_quoted, debug_string, has_prefix, is_ascii_white,
    parse_i32, parse_i32_spec, parse_u16, parse_u16_spec, starts_with_str, trim, trim_str,
    ascii_white, eq_str, find_char,
};

verus! {

/// The command line, after parsing.
#[derive(Debug, Clone)]
pub struct Args {
    /// SSH target, `user@host`.
    pub host: String,
    /// Whether `--host` was given.
    pub host_explicit: bool,
    /// Private key file for SSH.
    pub key: Option<String>,
    /// Pen input device on the tablet, `/dev/input/eventN`.
    pub device: Option<String>,
    pub max_x: Option<i32>,
    pub max_y: Option<i32>,
    pub max_pressure: Option<i32>,
    /// Fixed rotation in degrees.
    pub rotate: Option<u16>,
    pub auto_rotate: bool,
    pub headless: bool,
    pub verbose: bool,
}

/// The SSH target used when none is given.
pub open spec fn default_host() -> Seq<char> {
    "root@10.11.99.1"@
}

impl Default for Args {
    fn default() -> (r: Self)
        ensures
            r.host@ == default_host(),
            !r.host_explicit,
            r.key is None,
            r.device is None,
            r.max_x is None,
            r.max_y is None,
            r.max_pressure is None,
            r.rotate is None,
            !r.auto_rotate,
            !r.headless,
            !r.verbose,
    {
        Args {
            host: String::from_str("root@10.11.99.1"),
            host_explicit: false,
            key: None,
            device: None,
            max_x: None,
            max_y: None,
            max_pressure: None,
            rotate: None,
            auto_rotate: false,
            headless: false,
            verbose: false,
        }
    }
}

// ---------------------------------------------------------------------------
// The SSH target
// ---------------------------------------------------------------------------

pub open spec fn host_blank_error() -> Seq<char> {
    "SSH target must not be empty or contain spaces"@
}

pub open spec fn host_form_error() -> Seq<char> {
    "SSH target must be an IP, hostname, or user@host"@
}

/// Whether some character of `s` is ASCII white space.
pub open spec fn has_ascii_white(s: Seq<char>) -> bool {
    exists|i: int| 0 <= i < s.len() && is_ascii_white(#[trigger] s[i])
}

/// The SSH target for a text that names a device: the text without
/// surrounding white space, with `root@` before it when it names no user.
/// It must not be empty nor hold ASCII white space; the user (before the
/// first `@`) and the host must not be empty, and the host must not begin
/// with `-` nor hold another `@`.
pub open spec fn normalized_host(v: Seq<char>) -> Result<Seq<char>, Seq<char>> {
    let t = trim(v);
    if t.len() == 0 || has_ascii_white(t) {
        Err(host_blank_error())
    } else {
        let target = if t.contains('@') {
            t
        } else {
            "root@"@ + t
        };
        let at = char_index(target, '@');
        let user = target.subrange(0, at);
        let host = target.subrange(at + 1, target.len() as int);
        if user.len() == 0 || host.len() == 0 || host[0] == '-' || host.contains('@') {
            Err(host_form_error())
        } else {
            Ok(target)
        }
    }
}

fn any_ascii_white(v: &Vec<char>) -> (r: bool)
    ensures
        r == has_ascii_white(v@),
{
    let mut i: usize = 0;
    while i < v.len()
        invariant
            i <= v@.len(),
            forall|k: int| 0 <= k < i ==> !is_ascii_white(#[trigger] v@[k]),
        decreases v@.len() - i,
    {
        if ascii_white(v[i]) {
            return true;
        }
        i = i + 1;
    }
    false
}

/// Turns a device address or SSH target into an SSH target.
pub fn normalize_host(value: &str) -> (r: Result<String, String>)
    ensures
        match normalized_host(value@) {
            Ok(t) => r is Ok && r->Ok_0@ == t,
            Err(e) => r is Err && r->Err_0@ == e,
        },
{
    let value = trim_str(value);
    let v = chars_of(value);
    if v.len() == 0 || any_ascii_white(&v) {
        return Err(String::from_str("SSH target must not be empty or contain spaces"));
    }
    let at0 = find_char(&v, 0, v.len(), '@');
    proof {
        assert(v@.subrange(0, v@.len() as int) =~= v@);
        crate::text::lemma_leading_bound(v@, crate::text::other_than('@'));
        if v@.contains('@') {
            let k = choose|k: int| 0 <= k < v@.len() && v@[k] == '@';
            assert(!crate::text::other_than('@')(v@[k]));
        }
    }
    let target = if at0 < v.len() {
        String::from_str(value)
    } else {
        let mut t = String::from_str("root@");
        t.append(value);
        t
    };
    let tv = chars_of(target.as_str());
    let at = find_char(&tv, 0, tv.len(), '@');
    proof {
        assert(tv@.subrange(0, tv@.len() as int) =~= tv@);
        crate::text::lemma_leading_bound(tv@, crate::text::other_than('@'));
        if at0 >= v.len() {
            reveal_strlit("root@");
            assert(tv@[4] == '@');
            assert(!crate::text::other_than('@')(tv@[4]));
        }
    }
    let n = tv.len();
    let bad = if at == 0 || at + 1 >= n {
        true
    } else if tv[at + 1] == '-' {
        true
    } else {
        let next = find_char(&tv, at + 1, n, '@');
        proof {
            let host = tv@.subrange(at + 1, n as int);
            crate::text::lemma_leading_bound(host, crate::text::other_than('@'));
            if host.contains('@') {
                let k = choose|k: int| 0 <= k < host.len() && host[k] == '@';
                assert(!crate::text::other_than('@')(host[k]));
            }
            if next < n {
                assert(host[next - at - 1] == '@');
            }
        }
        next < n
    };
    proof {
        let host = tv@.subrange(at + 1, n as int);
        if at + 1 < n {
            assert(host[0] == tv@[at + 1]);
        }
    }
    if bad {
        return Err(String::from_str("SSH target must be an IP, hostname, or user@host"));
    }
    Ok(target)
}

// ---------------------------------------------------------------------------
// Numbers on the command line
// ---------------------------------------------------------------------------

/// The error for a value that is not a positive `i32`.
pub open spec fn positive_error(value: Seq<char>) -> Seq<char> {
    "expected a positive integer, got "@ + debug_quoted(value)
}

/// A value that `str::parse::<i32>` reads as a positive number.
pub open spec fn positive_value(value: Seq<char>) -> Result<i32, Seq<char>> {
    match parse_i32_spec(value) {
        Some(v) => if v > 0 {
            Ok(v)
        } else {
            Err(positive_error(value))
        },
        None => Err(positive_error(value)),
    }
}

/// Reads a positive integer.
pub fn parse_positive(value: &str) -> (r: Result<i32, String>)
    ensures
        match positive_value(value@) {
            Ok(v) => r == Ok::<i32, String>(v),
            Err(e) => r is Err && r->Err_0@ == e,
        },
{
    match parse_i32(value) {
        Some(v) => if v > 0 {
            return Ok(v);
        },
        None => {},
    }
    let mut msg = String::from_str("expected a positive integer, got ");
    let q = debug_string(value);
    msg.append(q.as_str());
    Err(msg)
}

/// The usage text.
pub open spec fn usage_text() -> Seq<char> {
    "Usage: ratablet [--host root@10.11.99.1] [--key FILE] [--device /dev/input/eventN]\n                 [--max-x N --max-y N --max-pressure N]\n                 [--auto-rotate | --rotate 0|90|180|270] [--headless] [-v]"@
}

/// The usage text.
pub fn usage() -> (r: String)
    ensures
        r@ == usage_text(),
{
    String::from_str(
        "Usage: ratablet [--host root@10.11.99.1] [--key FILE] [--device /dev/input/eventN]\n                 [--max-x N --max-y N --max-pressure N]\n                 [--auto-rotate | --rotate 0|90|180|270] [--headless] [-v]",
    )
}

// ---------------------------------------------------------------------------
// The command line
// ---------------------------------------------------------------------------

/// The command line as values.
pub struct ArgsModel {
    pub host: Seq<char>,
    pub host_explicit: bool,
    pub key: Option<Seq<char>>,
    pub device: Option<Seq<char>>,
    pub max_x: Option<i32>,
    pub max_y: Option<i32>,
    pub max_pressure: Option<i32>,
    pub rotate: Option<u16>,
    pub auto_rotate: bool,
    pub headless: bool,
    pub verbose: bool,
}

pub open spec fn opt_view(o: Option<String>) -> Option<Seq<char>> {
    match o {
        Some(s) => Some(s@),
        None => None,
    }
}

impl View for Args {
    type V = ArgsModel;

    open spec fn view(&self) -> ArgsModel {
        ArgsModel {
            host: self.host@,
            host_explicit: self.host_explicit,
            key: opt_view(self.key),
            device: opt_view(self.device),
            max_x: self.max_x,
            max_y: self.max_y,
            max_pressure: self.max_pressure,
            rotate: self.rotate,
            auto_rotate: self.auto_rotate,
            headless: self.headless,
            verbose: self.verbose,
        }
    }
}

/// The command line when no option is given.
pub open spec fn default_model() -> ArgsModel {
    ArgsModel {
        host: default_host(),
        host_explicit: false,
        key: None,
        device: None,
        max_x: None,
        max_y: None,
        max_pressure: None,
        rotate: None,
        auto_rotate: false,
        headless: false,
        verbose: false,
    }
}

pub open spec fn rotate_error() -> Seq<char> {
    "--rotate must be 0, 90, 180, or 270"@
}

pub open spec fn device_error() -> Seq<char> {
    "--device must look like /dev/input/event2"@
}

pub open spec fn conflict_error() -> Seq<char> {
    "--auto-rotate and --rotate cannot be used together"@
}

/// The error for an option without its value.
pub open spec fn missing_value_error(flag: Seq<char>) -> Seq<char> {
    flag + " requires a value"@
}

/// The error for an unknown option.
pub open spec fn unknown_option_error(word: Seq<char>) -> Seq<char> {
    "unknown option: "@ + word + "\n\n"@ + usage_text()
}

/// One option read: the index of the next word and the command line so
/// far, or the error that ends the reading.
pub enum Step {
    Next(nat, ArgsModel),
    Stop(Seq<char>),
}

/// Whether an option takes the following word as its value.
pub open spec fn takes_value(word: Seq<char>) -> bool {
    word == "--host"@ || word == "--key"@ || word == "--device"@ || word == "--max-x"@ || word
        == "--max-y"@ || word == "--max-pressure"@ || word == "--rotate"@
}

/// Reads the option `w[i]` (and its value `w[i + 1]`) into `a`.
pub open spec fn step(w: Seq<Seq<char>>, i: nat, a: ArgsModel) -> Step
    recommends
        i < w.len(),
{
    let word = w[i as int];
    if takes_value(word) {
        if i + 1 >= w.len() {
            Step::Stop(missing_value_error(word))
        } else {
            let value = w[(i + 1) as int];
            let next = (i + 2) as nat;
            if word == "--host"@ {
                Step::Next(next, ArgsModel { host: value, host_explicit: true, ..a })
            } else if word == "--key"@ {
                Step::Next(next, ArgsModel { key: Some(value), ..a })
            } else if word == "--device"@ {
                Step::Next(next, ArgsModel { device: Some(value), ..a })
            } else if word == "--rotate"@ {
                match parse_u16_spec(value) {
                    Some(r) => if valid_rotation(r) {
                        Step::Next(next, ArgsModel { rotate: Some(r), ..a })
                    } else {
                        Step::Stop(rotate_error())
                    },
                    None => Step::Stop(rotate_error()),
                }
            } else {
                match positive_value(value) {
                    Err(e) => Step::Stop(e),
                    Ok(v) => if word == "--max-x"@ {
                        Step::Next(next, ArgsModel { max_x: Some(v), ..a })
                    } else if word == "--max-y"@ {
                        Step::Next(next, ArgsModel { max_y: Some(v), ..a })
                    } else {
                        Step::Next(next, ArgsModel { max_pressure: Some(v), ..a })
                    },
                }
            }
        }
    } else if word == "--auto-rotate"@ {
        Step::Next(i + 1, ArgsModel { auto_rotate: true, ..a })
    } else if word == "--headless"@ {
        Step::Next(i + 1, ArgsModel { headless: true, ..a })
    } else if word == "-v"@ || word == "--verbose"@ {
        Step::Next(i + 1, ArgsModel { verbose: true, ..a })
    } else if word == "-h"@ || word == "--help"@ {
        Step::Stop(usage_text())
    } else {
        Step::Stop(unknown_option_error(word))
    }
}

/// Reads the options from `w[i]` on into `a`.
pub open spec fn read_options(w: Seq<Seq<char>>, i: nat, a: ArgsModel) -> Result<ArgsModel, Seq<char>>
    decreases w.len() - i,
{
    if i >= w.len() {
        Ok(a)
    } else {
        match step(w, i, a) {
            Step::Stop(e) => Err(e),
            Step::Next(j, b) => if j > i {
                read_options(w, j, b)
            } else {
                Ok(b)
            },
        }
    }
}

/// A device path of the form `/dev/input/eventN`.
pub open spec fn is_event_device(d: Seq<char>) -> bool {
    has_prefix(d, "/dev/input/event"@) && d.len() > 16 && all_digits(d.subrange(16, d.len() as int))
}

/// What the words after the program name give: the command line, or the
/// text to print (the usage text for `-h`, else an error).
pub open spec fn parsed_args(w: Seq<Seq<char>>) -> Result<ArgsModel, Seq<char>> {
    match read_options(w, 0, default_model()) {
        Err(e) => Err(e),
        Ok(a) => if a.device is Some && !is_event_device(a.device->0) {
            Err(device_error())
        } else {
            match normalized_host(a.host) {
                Err(e) => Err(e),
                Ok(h) => if a.auto_rotate && a.rotate is Some {
                    Err(conflict_error())
                } else {
                    Ok(ArgsModel { host: h, ..a })
                },
            }
        },
    }
}

/// The characters of each word.
pub open spec fn words_view(w: Seq<String>) -> Seq<Seq<char>> {
    w.map_values(|s: String| s@)
}

/// `flag requires a value`.
fn missing_value(flag: &str) -> (r: String)
    ensures
        r@ == missing_value_error(flag@),
{
    let mut msg = String::from_str(flag);
    msg.append(" requires a value");
    msg
}

/// Whether the word is one of the options that take a value.
fn word_takes_value(v: &Vec<char>) -> (r: bool)
    ensures
        r == takes_value(v@),
{
    eq_str(v, "--host") || eq_str(v, "--key") || eq_str(v, "--device") || eq_str(v, "--max-x")
        || eq_str(v, "--max-y") || eq_str(v, "--max-pressure") || eq_str(v, "--rotate")
}

/// Reads the option that takes a value, `word`, with its value.
fn read_valued(word: &Vec<char>, value: &String, a: &mut Args) -> (r: Result<(), String>)
    requires
        takes_value(word@),
    ensures
        match step(seq![word@, value@], 0, old(a)@) {
            Step::Next(_, b) => r is Ok && final(a)@ == b,
            Step::Stop(e) => r is Err && r->Err_0@ == e,
        },
{
    let ghost w = seq![word@, value@];
    assert(w[0] == word@ && w[1] == value@);
    if eq_str(word, "--host") {
        a.host = value.clone();
        a.host_explicit = true;
        Ok(())
    } else if eq_str(word, "--key") {
        a.key = Some(value.clone());
        Ok(())
    } else if eq_str(word, "--device") {
        a.device = Some(value.clone());
        Ok(())
    } else if eq_str(word, "--rotate") {
        match parse_u16(value.as_str()) {
            Some(rotate) => if rotate == 0 || rotate == 90 || rotate == 180 || rotate == 270 {
                a.rotate = Some(rotate);
                Ok(())
            } else {
                Err(String::from_str("--rotate must be 0, 90, 180, or 270"))
            },
            None => Err(String::from_str("--rotate must be 0, 90, 180, or 270")),
        }
    } else {
        let v = parse_positive(value.as_str())?;
        if eq_str(word, "--max-x") {
            a.max_x = Some(v);
        } else if eq_str(word, "--max-y") {
            a.max_y = Some(v);
        } else {
            a.max_pressure = Some(v);
        }
        Ok(())
    }
}

fn all_digits_from(v: &Vec<char>, start: usize) -> (r: bool)
    requires
        start <= v@.len(),
    ensures
        r == all_digits(v@.subrange(start as int, v@.len() as int)),
{
    let mut i = start;
    while i < v.len()
        invariant
            start <= i <= v@.len(),
            forall|k: int| start <= k < i ==> crate::text::is_ascii_digit(#[trigger] v@[k]),
        decreases v@.len() - i,
    {
        if !('0' <= v[i] && v[i] <= '9') {
            proof {
                assert(v@.subrange(start as int, v@.len() as int)[i - start] == v@[i as int]);
            }
            return false;
        }
        i = i + 1;
    }
    proof {
        let d = v@.subrange(start as int, v@.len() as int);
        assert forall|k: int| 0 <= k < d.len() implies crate::text::is_ascii_digit(#[trigger] d[k]) by {
            assert(d[k] == v@[k + start]);
        }
    }
    true
}

/// Whether `d` has the form `/dev/input/eventN`.
fn event_device(d: &String) -> (r: bool)
    ensures
        r == is_event_device(d@),
{
    let v = chars_of(d.as_str());
    starts_with_str(&v, "/dev/input/event") && v.len() > 16 && all_digits_from(&v, 16)
}

impl Args {
    /// Reads the command line: `words` are the arguments after the program
    /// name. The error is the text to print: the usage text for `-h` or
    /// `--help`, else what is wrong.
    pub fn parse(words: &Vec<String>) -> (r: Result<Args, String>)
        ensures
            match parsed_args(words_view(words@)) {
                Ok(m) => r is Ok && r->Ok_0@ == m,
                Err(e) => r is Err && r->Err_0@ == e,
            },
    {
        let ghost w = words_view(words@);
        let mut a = Args::default();
        proof {
            assert(a@ == default_model());
        }
        let mut i: usize = 0;
        while i < words.len()
            invariant
                w == words_view(words@),
                w.len() == words@.len(),
                i <= words@.len(),
                read_options(w, i as nat, a@) == read_options(w, 0, default_model()),
            decreases words@.len() - i,
        {
            let word = chars_of(words[i].as_str());
            proof {
                assert(w[i as int] == words@[i as int]@);
            }
            if word_takes_value(&word) {
                if i + 1 >= words.len() {
                    return Err(missing_value(words[i].as_str()));
                }
                proof {
                    assert(w[i + 1] == words@[i + 1]@);
                }
                let res = read_valued(&word, &words[i + 1], &mut a);
                if let Err(e) = res {
                    return Err(e);
                }
                i = i + 2;
            } else if eq_str(&word, "--auto-rotate") {
                a.auto_rotate = true;
                i = i + 1;
            } else if eq_str(&word, "--headless") {
                a.headless = true;
                i = i + 1;
            } else if eq_str(&word, "-v") || eq_str(&word, "--verbose") {
                a.verbose = true;
                i = i + 1;
            } else if eq_str(&word, "-h") || eq_str(&word, "--help") {
                return Err(usage());
            } else {
                let mut msg = String::from_str("unknown option: ");
                msg.append(words[i].as_str());
                msg.append("\n\n");
                let u = usage();
                msg.append(u.as_str());
                return Err(msg);
            }
        }
        proof {
            assert(read_options(w, i as nat, a@) == Ok::<ArgsModel, Seq<char>>(a@));
        }
        let device_ok = match &a.device {
            Some(device) => event_device(device),
            None => true,
        };
        if !device_ok {
            return Err(String::from_str("--device must look like /dev/input/event2"));
        }
        let host = normalize_host(a.host.as_str())?;
        a.host = host;
        if a.auto_rotate && a.rotate.is_some() {
            return Err(String::from_str("--auto-rotate and --rotate cannot be used together"));
        }
        Ok(a)
    }
}

} // verus!
