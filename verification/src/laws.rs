use vstd::prelude::*;

use crate::device::or_else;
use crate::args::{
    default_model, has_ascii_white, normalized_host, parsed_args, positive_value, read_options,
    step, ArgsModel, Step,
};
use crate::output::{
    lifted, mac_actions, mac_committed, mouse_kind, report_of, windows_committed, windows_frame,
    MacAction, MacPen, MouseKind, PointerPhase, ScreenArea, WindowsPen,
};
use crate::pen::{
    applied, decoded_event, is_report_end, read_result, rotated_point, scaled, transformed_state,
    valid_rotation, InputEvent, PenState,
};
use crate::retry::{kind_of, same_kind, RetryErrorKind};
use crate::rotation::{
    effective_rotation, landscape_of, mode_code, mode_name, mode_named, mode_of_code, valid_mode,
    RotationMode,
};
use crate::session::{ranges_for, valid_sensed};
use crate::ssh::{
    escape_quotes, fixed_ssh_options, quote_piece, remote_command, shell_quoted, ssh_arguments,
};
use crate::state::{
    after_failure, next_revision, reconnected, retry_plan, wait_is_over, SharedState,
};
use crate::text::{
    char_index, is_ascii_white, is_white_space, leading, lemma_leading, lemma_leading_bound,
    lemma_trailing, lemma_trailing_bound, other_than, parse_u16_spec, trailing, trim,
    trim_end_by, trim_start_by,
};
use crate::ui::{language_code, language_named, status_kind_of, Language, StatusKind};

verus! {

// ---------------------------------------------------------------------------
// Stored settings
// ---------------------------------------------------------------------------

/// A rotation mode kept as a number reads back as the same mode.
pub proof fn law_mode_code_round_trip(m: RotationMode)
    requires
        valid_mode(m),
    ensures
        mode_of_code(mode_code(m)) == m,
{
}

/// A rotation mode stored under its name reads back as the same mode.
pub proof fn law_mode_name_round_trip(m: RotationMode)
    requires
        valid_mode(m),
    ensures
        mode_named(mode_name(m)) == Some(m),
{
    reveal_strlit("landscape");
    reveal_strlit("auto");
    reveal_strlit("0");
    reveal_strlit("90");
    reveal_strlit("180");
    reveal_strlit("270");
    let n = mode_name(m);
    match m {
        RotationMode::Landscape => {},
        RotationMode::Auto => {
            assert(n.len() != "landscape"@.len());
        },
        RotationMode::Fixed(d) => {
            if d == 0 {
                assert(n.len() != "landscape"@.len());
                assert(n.len() != "auto"@.len());
            } else if d == 90 {
                assert(n.len() != "landscape"@.len());
                assert(n.len() != "auto"@.len());
                assert(n.len() != "0"@.len());
            } else if d == 180 {
                assert(n.len() != "landscape"@.len());
                assert(n.len() != "auto"@.len());
                assert(n.len() != "0"@.len());
                assert(n.len() != "90"@.len());
            } else {
                assert(n.len() != "landscape"@.len());
                assert(n.len() != "auto"@.len());
                assert(n.len() != "0"@.len());
                assert(n.len() != "90"@.len());
                assert(n[1] != "180"@[1]);
            }
        },
    }
}

/// A language stored under its name reads back as the same language.
pub proof fn law_language_code_round_trip(l: Language)
    ensures
        language_named(language_code(l)) == Some(l),
{
    reveal_strlit("en");
    reveal_strlit("zh-CN");
    if l == Language::Chinese {
        assert(language_code(l).len() != "en"@.len());
    }
}

// ---------------------------------------------------------------------------
// The SSH target
// ---------------------------------------------------------------------------

proof fn lemma_trim_fixed(t: Seq<char>)
    requires
        t.len() > 0,
        !is_white_space(t[0]),
        !is_white_space(t.last()),
    ensures
        trim(t) == t,
{
    let ws = |c: char| is_white_space(c);
    lemma_leading(t, ws, 0);
    assert(trim_start_by(t, ws) =~= t);
    lemma_trailing(t, ws, t.len() as int);
    assert(trim_end_by(t, ws) =~= t);
}

/// A normalized SSH target is `user@host` with a user, a host that does
/// not begin with `-`, no white space at its ends and no ASCII white
/// space; normalizing it again gives it back unchanged.
pub proof fn law_normalized_host_is_stable(v: Seq<char>)
    requires
        normalized_host(v) is Ok,
    ensures
        ({
            let t = normalized_host(v)->Ok_0;
            &&& normalized_host(t) == Ok::<Seq<char>, Seq<char>>(t)
            &&& t.contains('@')
            &&& 0 < char_index(t, '@') < t.len() - 1
            &&& t[char_index(t, '@') + 1] != '-'
            &&& !has_ascii_white(t)
        }),
{
    let ws = |c: char| is_white_space(c);
    let tt = trim(v);
    let s = trim_start_by(v, ws);
    lemma_leading_bound(v, ws);
    lemma_trailing_bound(s, ws);
    assert(tt.len() > 0);
    // The ends of the trimmed text are not white space.
    assert(!is_white_space(tt[0])) by {
        assert(tt[0] == s[0]);
        assert(s[0] == v[leading(v, ws) as int]);
    }
    assert(!is_white_space(tt.last())) by {
        assert(tt.last() == s[s.len() - trailing(s, ws) - 1]);
    }
    let t = normalized_host(v)->Ok_0;
    reveal_strlit("root@");
    if tt.contains('@') {
        assert(t == tt);
    } else {
        assert(t == "root@"@ + tt);
        assert(t[0] == 'r');
        assert(t.last() == tt.last());
        assert forall|i: int| 0 <= i < t.len() implies !is_ascii_white(#[trigger] t[i]) by {
            if i >= 5 {
                assert(t[i] == tt[i - 5]);
            }
        }
        assert(t[4] == '@');
    }
    lemma_trim_fixed(t);
    assert(t.contains('@')) by {
        if !tt.contains('@') {
            assert(t[4] == '@');
        }
    }
    lemma_leading_bound(t, other_than('@'));
    let at = char_index(t, '@');
    if at >= t.len() {
        let k = choose|k: int| 0 <= k < t.len() && t[k] == '@';
        assert(other_than('@')(t[k]));
    }
    let host = t.subrange(at + 1, t.len() as int);
    assert(host[0] == t[at + 1]);
}

// ---------------------------------------------------------------------------
// The command line
// ---------------------------------------------------------------------------

/// What the options read so far keep: a rotation is a supported one and
/// the ranges are positive.
pub open spec fn options_sound(a: ArgsModel) -> bool {
    &&& (a.rotate matches Some(r) ==> valid_rotation(r))
    &&& (a.max_x matches Some(x) ==> x > 0)
    &&& (a.max_y matches Some(y) ==> y > 0)
    &&& (a.max_pressure matches Some(p) ==> p > 0)
}

proof fn lemma_read_options_sound(w: Seq<Seq<char>>, i: nat, a: ArgsModel)
    requires
        options_sound(a),
        read_options(w, i, a) is Ok,
    ensures
        options_sound(read_options(w, i, a)->Ok_0),
    decreases w.len() - i,
{
    if i < w.len() {
        match step(w, i, a) {
            Step::Stop(_) => {},
            Step::Next(j, b) => {
                assert(options_sound(b)) by {
                    let word = w[i as int];
                    if i + 1 < w.len() {
                        let value = w[(i + 1) as int];
                        match positive_value(value) {
                            Ok(v) => {
                                assert(v > 0);
                            },
                            Err(_) => {},
                        }
                        match parse_u16_spec(value) {
                            Some(r) => {},
                            None => {},
                        }
                    }
                }
                if j > i {
                    lemma_read_options_sound(w, j, b);
                }
            },
        }
    }
}

/// A command line that parses asks for at most one of automatic and fixed
/// rotation, a fixed rotation of 0, 90, 180 or 270 degrees, positive
/// ranges, and a normalized SSH target.
pub proof fn law_parsed_args_are_sound(w: Seq<Seq<char>>)
    requires
        parsed_args(w) is Ok,
    ensures
        ({
            let a = parsed_args(w)->Ok_0;
            &&& options_sound(a)
            &&& !(a.auto_rotate && a.rotate is Some)
            &&& normalized_host(a.host) == Ok::<Seq<char>, Seq<char>>(a.host)
        }),
{
    lemma_read_options_sound(w, 0, default_model());
    let r = read_options(w, 0, default_model())->Ok_0;
    law_normalized_host_is_stable(r.host);
}

// ---------------------------------------------------------------------------
// Connection errors
// ---------------------------------------------------------------------------

/// "The same error" for the panel is an equivalence: the panel keeps the
/// message it shows while errors of one kind follow each other.
pub proof fn law_same_kind_is_equivalence(a: Seq<char>, b: Seq<char>, c: Seq<char>)
    ensures
        same_kind(a, a),
        same_kind(a, b) ==> same_kind(b, a),
        same_kind(a, b) && same_kind(b, c) ==> same_kind(a, c),
{
}

/// Every request to reconnect moves the revision on, so the worker notices
/// it.
pub proof fn law_reconnect_changes_revision(r: u64)
    ensures
        next_revision(r) != r,
{
}

/// An authentication failure pauses reconnection and asks for a password:
/// the panel shows that authentication is required, the worker's wait does
/// not end however long it lasts while the settings stay as they are, and
/// a new password ends it.
pub proof fn law_auth_failure_pauses_until_new_password(
    s: SharedState,
    error: String,
    password: Option<String>,
    t: SharedState,
    waited: u32,
)
    requires
        kind_of(error@) == RetryErrorKind::Authentication,
        !s.stop,
        reconnected(SharedState { password: password, ..after_failure(s, error) }, t),
    ensures
        status_kind_of(after_failure(s, error).connection) == StatusKind::AuthenticationRequired,
        !wait_is_over(after_failure(s, error), retry_plan(error@, s.revision), waited),
        wait_is_over(t, retry_plan(error@, s.revision), 0),
{
}

// ---------------------------------------------------------------------------
// Pen reports
// ---------------------------------------------------------------------------

/// The pen state after a run of events.
pub open spec fn applied_all(s: PenState, events: Seq<InputEvent>) -> PenState
    decreases events.len(),
{
    if events.len() == 0 {
        s
    } else {
        applied_all(applied(s, events[0]), events.drop_first())
    }
}

/// The report that the virtual tablet gets for a state, read back as
/// evdev events from any state, gives that state again; only its last
/// event ends the report.
pub proof fn law_report_reproduces_state(s: PenState, t: PenState)
    ensures
        applied_all(t, report_of(s)) == s,
        is_report_end(report_of(s).last()),
        forall|i: int| 0 <= i < report_of(s).len() - 1 ==> !is_report_end(#[trigger] report_of(s)[i]),
{
    let r = report_of(s);
    assert(applied_all(t, r) == applied_all(t, r.subrange(0, 12))) by {
        assert(r.subrange(0, 12) =~= r);
    }
    reveal_with_fuel(applied_all, 13);
    assert(r.drop_first() =~= r.subrange(1, 12));
    assert(r.subrange(1, 12).drop_first() =~= r.subrange(2, 12));
    assert(r.subrange(2, 12).drop_first() =~= r.subrange(3, 12));
    assert(r.subrange(3, 12).drop_first() =~= r.subrange(4, 12));
    assert(r.subrange(4, 12).drop_first() =~= r.subrange(5, 12));
    assert(r.subrange(5, 12).drop_first() =~= r.subrange(6, 12));
    assert(r.subrange(6, 12).drop_first() =~= r.subrange(7, 12));
    assert(r.subrange(7, 12).drop_first() =~= r.subrange(8, 12));
    assert(r.subrange(8, 12).drop_first() =~= r.subrange(9, 12));
    assert(r.subrange(9, 12).drop_first() =~= r.subrange(10, 12));
    assert(r.subrange(10, 12).drop_first() =~= r.subrange(11, 12));
    assert(r.subrange(11, 12).drop_first() =~= Seq::<InputEvent>::empty());
    let s1 = applied(t, r[0]);
    let s2 = applied(s1, r[1]);
    let s3 = applied(s2, r[2]);
    let s4 = applied(s3, r[3]);
    let s5 = applied(s4, r[4]);
    let s6 = applied(s5, r[5]);
    let s7 = applied(s6, r[6]);
    let s8 = applied(s7, r[7]);
    let s9 = applied(s8, r[8]);
    let s10 = applied(s9, r[9]);
    let s11 = applied(s10, r[10]);
    let s12 = applied(s11, r[11]);
    assert(s12 == s);
}

/// The 8 bytes of an event's record: type and code as little-endian
/// `u16`, value as little-endian two's-complement `i32`.
pub open spec fn event_bytes(e: InputEvent) -> Seq<u8> {
    let u: int = if e.value < 0 {
        e.value + 0x1_0000_0000
    } else {
        e.value as int
    };
    seq![
        (e.kind % 256) as u8,
        (e.kind / 256) as u8,
        (e.code % 256) as u8,
        (e.code / 256) as u8,
        (u % 256) as u8,
        ((u / 256) % 256) as u8,
        ((u / 65536) % 256) as u8,
        (u / 16777216) as u8,
    ]
}

/// A record whose last 8 bytes encode an event reads back as that event,
/// whatever comes before them (the timestamp) and after the record.
pub proof fn law_record_round_trip(e: InputEvent, stamp: Seq<u8>, rest: Seq<u8>)
    ensures
        read_result(stamp + event_bytes(e) + rest, (stamp.len() + 8) as nat) == Ok::<
            Option<InputEvent>,
            crate::pen::PartialRecord,
        >(Some(e)),
{
    let size = stamp.len() + 8;
    let stream = stamp + event_bytes(e) + rest;
    let rec = stream.subrange(0, size as int);
    assert(rec =~= stamp + event_bytes(e));
    let b = event_bytes(e);
    let n = size as int;
    assert(rec[n - 8] == b[0] && rec[n - 7] == b[1] && rec[n - 6] == b[2] && rec[n - 5] == b[3]);
    assert(rec[n - 4] == b[4] && rec[n - 3] == b[5] && rec[n - 2] == b[6] && rec[n - 1] == b[7]);
    let d = decoded_event(rec);
    lemma_two_bytes(e.kind as int);
    lemma_two_bytes(e.code as int);
    let u: int = if e.value < 0 {
        e.value + 0x1_0000_0000
    } else {
        e.value as int
    };
    lemma_four_bytes(u);
    assert(d.kind == e.kind);
    assert(d.code == e.code);
    assert(d.value == e.value);
}

proof fn lemma_two_bytes(v: int)
    requires
        0 <= v < 0x1_0000,
    ensures
        0 <= v % 256 < 256,
        0 <= v / 256 < 256,
        v % 256 + (v / 256) * 256 == v,
{
}

proof fn lemma_four_bytes(u: int)
    requires
        0 <= u < 0x1_0000_0000,
    ensures
        0 <= u % 256 < 256,
        0 <= (u / 256) % 256 < 256,
        0 <= (u / 65536) % 256 < 256,
        0 <= u / 16777216 < 256,
        u % 256 + ((u / 256) % 256) * 256 + ((u / 65536) % 256) * 65536 + (u / 16777216)
            * 16777216 == u,
{
    assert(u % 256 + ((u / 256) % 256) * 256 + ((u / 65536) % 256) * 65536 + (u / 16777216)
        * 16777216 == u) by (nonlinear_arith)
        requires
            0 <= u < 0x1_0000_0000,
    ;
}

// ---------------------------------------------------------------------------
// Rotation and scaling
// ---------------------------------------------------------------------------

/// The rotation in effect is always one that the tablet supports.
pub proof fn law_rotation_is_supported(m: RotationMode, model: Seq<char>, sensed: u16)
    requires
        valid_mode(m),
        valid_sensed(sensed),
    ensures
        valid_rotation(effective_rotation(m, model, sensed)),
{
}

/// A point on the tablet stays on the tablet when it is turned: it lies
/// within the turned tablet's ranges, which are the output ranges of the
/// rotation.
pub proof fn law_rotation_keeps_point_on_tablet(x: int, y: int, max_x: i32, max_y: i32, rotate: u16)
    requires
        valid_rotation(rotate),
        0 <= x <= max_x,
        0 <= y <= max_y,
    ensures
        ({
            let t = rotated_point(x, y, max_x as int, max_y as int, rotate);
            let o = ranges_for(max_x, max_y, rotate);
            &&& 0 <= t.0 <= t.2
            &&& 0 <= t.1 <= t.3
            &&& t.2 == o.0
            &&& t.3 == o.1
        }),
{
}

/// Scaling a range onto itself changes no point of it.
pub proof fn law_scaling_onto_same_range(v: int, m: int)
    requires
        0 <= v <= m,
        m > 0,
    ensures
        scaled(v, m, m) == v,
{
    assert((v * m) / m == v) by (nonlinear_arith)
        requires m > 0;
    assert(v * m >= 0) by (nonlinear_arith)
        requires v >= 0, m >= 0;
}

/// Without rotation and with the tablet's own ranges as output ranges, a
/// pen on the tablet is passed on unchanged.
pub proof fn law_unrotated_identity(s: PenState, max_x: i32, max_y: i32)
    requires
        max_x > 0,
        max_y > 0,
        0 <= s.x <= max_x,
        0 <= s.y <= max_y,
    ensures
        transformed_state(s, max_x, max_y, max_x, max_y, 0) == s,
{
    law_scaling_onto_same_range(s.x as int, max_x as int);
    law_scaling_onto_same_range(s.y as int, max_y as int);
}

// ---------------------------------------------------------------------------
// Shell quoting
// ---------------------------------------------------------------------------

/// How a POSIX shell reads a word made of single-quoted text, backslash
/// escapes and plain characters (`quoted`: inside single quotes); `None`
/// when a quote is left open.
pub open spec fn shell_word(w: Seq<char>, quoted: bool) -> Option<Seq<char>>
    decreases w.len(),
{
    if w.len() == 0 {
        if quoted {
            None
        } else {
            Some(Seq::empty())
        }
    } else if quoted {
        if w[0] == '\'' {
            shell_word(w.drop_first(), false)
        } else {
            match shell_word(w.drop_first(), true) {
                Some(r) => Some(seq![w[0]] + r),
                None => None,
            }
        }
    } else if w[0] == '\'' {
        shell_word(w.drop_first(), true)
    } else if w[0] == '\\' && w.len() >= 2 {
        match shell_word(w.subrange(2, w.len() as int), false) {
            Some(r) => Some(seq![w[1]] + r),
            None => None,
        }
    } else {
        match shell_word(w.drop_first(), false) {
            Some(r) => Some(seq![w[0]] + r),
            None => None,
        }
    }
}

proof fn lemma_escaped_reads_back(s: Seq<char>)
    ensures
        shell_word(escape_quotes(s) + seq!['\''], true) == Some(s),
    decreases s.len(),
{
    let w = escape_quotes(s) + seq!['\''];
    if s.len() == 0 {
        assert(w =~= seq!['\'']);
        assert(w[0] == '\'');
        assert(w.drop_first() =~= Seq::<char>::empty());
        assert(shell_word(w.drop_first(), false) == Some(Seq::<char>::empty()));
        assert(s =~= Seq::<char>::empty());
    } else {
        let c = s[0];
        let tail = s.drop_first();
        lemma_escaped_reads_back(tail);
        let rest = escape_quotes(tail) + seq!['\''];
        assert(shell_word(rest, true) == Some(tail));
        assert(w =~= quote_piece(c) + rest);
        if c == '\'' {
            assert(w[0] == '\'');
            let w1 = w.drop_first();
            assert(w1 =~= seq!['\\', '\'', '\''] + rest);
            assert(w1[0] == '\\' && w1[1] == '\'' && w1.len() >= 2);
            let w2 = w1.subrange(2, w1.len() as int);
            assert(w2 =~= seq!['\''] + rest);
            assert(w2[0] == '\'');
            assert(w2.drop_first() =~= rest);
            assert(shell_word(w2, false) == shell_word(rest, true));
            assert(shell_word(w1, false) == Some(seq!['\''] + tail));
            assert(shell_word(w, true) == shell_word(w1, false));
            assert(seq!['\''] + tail =~= s);
        } else {
            assert(w[0] == c);
            assert(w.drop_first() =~= rest);
            assert(shell_word(w, true) == Some(seq![c] + tail));
            assert(seq![c] + tail =~= s);
        }
    }
}

/// A shell reads the quoted text back as the original: the tablet-side
/// program reaches `/bin/sh -c` unchanged, whatever quotes it holds.
pub proof fn law_shell_quote_reads_back(s: Seq<char>)
    ensures
        shell_word(shell_quoted(s), false) == Some(s),
{
    let w = shell_quoted(s);
    assert(w.drop_first() =~= escape_quotes(s) + seq!['\'']);
    lemma_escaped_reads_back(s);
}

// ---------------------------------------------------------------------------
// More on targets, headers and scaling
// ---------------------------------------------------------------------------

/// ssh gets `-i` with a key file exactly when a key was given, right after
/// the options and before `--`, the target and the tablet-side command,
/// which always come last (for a target as normalization leaves it).
pub proof fn law_ssh_key_option(
    host: Seq<char>,
    key: Option<Seq<char>>,
    device: Seq<char>,
    auto: bool,
    port: u16,
    token: Seq<char>,
    sink: Seq<char>,
)
    requires
        normalized_host(host) == Ok::<Seq<char>, Seq<char>>(host),
    ensures
        ({
            let a = ssh_arguments(host, key, device, auto, port, token, sink);
            &&& a.contains("-i"@) <==> key is Some
            &&& key matches Some(k) ==> a[25] == "-i"@ && a[26] == k
            &&& a.len() == (if key is Some { 30int } else { 28int })
            &&& a[a.len() - 3] == "--"@
            &&& a[a.len() - 2] == host
            &&& a[a.len() - 1] == remote_command(device, auto, port, token)
        }),
{
    law_normalized_host_is_stable(host);
    let a = ssh_arguments(host, key, device, auto, port, token, sink);
    let f = fixed_ssh_options();
    reveal_strlit("-i");
    reveal_strlit("-T");
    reveal_strlit("-o");
    reveal_strlit("--");
    reveal_strlit("ClearAllForwardings=yes");
    reveal_strlit("ServerAliveInterval=5");
    reveal_strlit("ServerAliveCountMax=2");
    reveal_strlit("ConnectTimeout=5");
    reveal_strlit("StrictHostKeyChecking=no");
    reveal_strlit("UpdateHostKeys=no");
    reveal_strlit("CheckHostIP=no");
    reveal_strlit("LogLevel=ERROR");
    reveal_strlit("PreferredAuthentications=publickey,keyboard-interactive,password");
    reveal_strlit("NumberOfPasswordPrompts=1");
    reveal_strlit("UserKnownHostsFile=");
    reveal_strlit("GlobalKnownHostsFile=");
    reveal_strlit("RAT_DEVICE='");
    assert(f.len() == 21);
    assert(a.len() == (if key is Some { 30int } else { 28int }));
    if key is Some {
        assert(a[25] == "-i"@);
    } else {
        let m = "-i"@;
        assert(m.len() == 2 && m[0] == '-' && m[1] == 'i');
        assert(!m.contains('@')) by {
            assert forall|k: int| 0 <= k < m.len() implies m[k] != '@' by {
                if k == 0 {
                } else {
                }
            }
        }
        assert forall|j: int| 0 <= j < a.len() implies a[j] != m by {
            if j < 21 {
                assert(a[j] == f[j]);
            } else if j == 21 || j == 23 {
                assert(a[j] == "-o"@);
                assert(a[j][1] == 'o');
            } else if j == 22 || j == 24 {
                assert(a[j].len() >= 19);
            } else if j == 25 {
                assert(a[j] == "--"@);
                assert(a[j][1] == '-');
            } else if j == 26 {
                assert(a[j] == host);
            } else {
                assert(a[j] == remote_command(device, auto, port, token));
                assert(a[j].len() >= 12);
            }
        }
    }
}

/// An IP address or host name (no `@`, no white space, not beginning with
/// `-`) becomes a target for the `root` user.
pub proof fn law_bare_host_gets_root_user(t: Seq<char>)
    requires
        t.len() > 0,
        !t.contains('@'),
        t[0] != '-',
        forall|i: int| 0 <= i < t.len() ==> !is_white_space(#[trigger] t[i]),
    ensures
        normalized_host(t) == Ok::<Seq<char>, Seq<char>>("root@"@ + t),
{
    lemma_trim_fixed(t);
    assert forall|i: int| 0 <= i < t.len() implies !is_ascii_white(#[trigger] t[i]) by {
        assert(!is_white_space(t[i]));
    }
    reveal_strlit("root@");
    let target = "root@"@ + t;
    assert(target[4] == '@');
    lemma_leading(target, other_than('@'), 4);
    let host = target.subrange(5, target.len() as int);
    assert(host =~= t);
}

/// The header is well formed: four fields, `RAT1`, and a word size of 32
/// or 64 bits.
pub open spec fn header_well_formed(h: Seq<char>) -> bool {
    match crate::device::four_fields(crate::device::header_line(h)) {
        Some(f) => f.0 == "RAT1"@ && (f.1 == "32"@ || f.1 == "64"@),
        None => false,
    }
}

/// With all three ranges given, any well-formed header is accepted, for a
/// model known or not, and the given ranges are the ones used.
pub proof fn law_explicit_ranges_support_any_model(h: Seq<char>, x: i32, y: i32, p: i32)
    ensures
        crate::device::header_result(h, Some(x), Some(y), Some(p)) is Ok <==> header_well_formed(h),
        crate::device::header_result(h, Some(x), Some(y), Some(p)) matches Ok(d) ==> d.3 == x
            && d.4 == y && d.5 == p,
{
}

/// A known model needs no ranges: a well-formed header of it is accepted
/// with the ranges of its profile.
pub proof fn law_known_models_need_no_ranges(h: Seq<char>)
    requires
        header_well_formed(h),
        crate::device::profile(
            crate::device::model_name(
                (crate::device::four_fields(crate::device::header_line(h))->0).3,
            ),
        ) is Some,
    ensures
        ({
            let f = crate::device::four_fields(crate::device::header_line(h))->0;
            let q = crate::device::profile(crate::device::model_name(f.3))->0;
            crate::device::header_result(h, None, None, None) matches Ok(d) && d.3 == q.0 && d.4
                == q.1 && d.5 == q.2
        }),
{
}

/// Scaling keeps the order of points along an axis.
pub proof fn law_scaling_is_monotone(v1: int, v2: int, source_max: int, target_max: int)
    requires
        v1 <= v2,
        source_max > 0,
        target_max >= 0,
    ensures
        scaled(v1, source_max, target_max) <= scaled(v2, source_max, target_max),
{
    let c1 = if v1 < 0 {
        0
    } else if v1 > source_max {
        source_max
    } else {
        v1
    };
    let c2 = if v2 < 0 {
        0
    } else if v2 > source_max {
        source_max
    } else {
        v2
    };
    assert(0 <= c1 <= c2);
    assert(0 <= c1 * target_max <= c2 * target_max) by (nonlinear_arith)
        requires 0 <= c1 <= c2, target_max >= 0;
    assert((c1 * target_max) / source_max <= (c2 * target_max) / source_max) by (nonlinear_arith)
        requires 0 <= c1 * target_max <= c2 * target_max, source_max > 0;
}

proof fn lemma_scaled_range(v: int, source_max: int, target_max: int)
    requires
        source_max > 0,
        target_max >= 0,
    ensures
        0 <= scaled(v, source_max, target_max) <= target_max,
{
    let c = if v < 0 {
        0
    } else if v > source_max {
        source_max
    } else {
        v
    };
    assert(scaled(v, source_max, target_max) == scaled(c, source_max, target_max));
    law_scaling_is_monotone(c, source_max, source_max, target_max);
    law_scaling_is_monotone(0, c, source_max, target_max);
    assert(scaled(source_max, source_max, target_max) == target_max) by {
        assert((source_max * target_max) / source_max == target_max) by (nonlinear_arith)
            requires source_max > 0;
        assert(source_max * target_max >= 0) by (nonlinear_arith)
            requires source_max > 0, target_max >= 0;
    }
    assert(0 * target_max == 0) by (nonlinear_arith);
    assert(0int / source_max == 0) by (nonlinear_arith)
        requires source_max > 0;
    assert(scaled(0, source_max, target_max) == 0);
}

/// Every report that reaches the output lies within the output ranges,
/// whatever the pen reported and whatever the rotation.
pub proof fn law_report_stays_in_output(
    s: PenState,
    max_x: i32,
    max_y: i32,
    output_x: i32,
    output_y: i32,
    rotate: u16,
)
    requires
        crate::pen::transform_fits(s, max_x, max_y, rotate),
        output_x >= 0,
        output_y >= 0,
    ensures
        0 <= transformed_state(s, max_x, max_y, output_x, output_y, rotate).x <= output_x,
        0 <= transformed_state(s, max_x, max_y, output_x, output_y, rotate).y <= output_y,
{
    let t = rotated_point(s.x as int, s.y as int, max_x as int, max_y as int, rotate);
    lemma_scaled_range(t.0, t.2, output_x as int);
    lemma_scaled_range(t.1, t.3, output_y as int);
}

// ---------------------------------------------------------------------------
// Pen output on Windows and macOS
// ---------------------------------------------------------------------------

/// On Windows, a pen that leaves the range gets a frame that lifts it and
/// takes it out of range.
pub proof fn law_windows_pen_leaves_lifted(
    p: crate::output::WindowsPen,
    s: PenState,
    max_x: i32,
    max_y: i32,
    max_pressure: i32,
    screen: crate::output::ScreenArea,
)
    requires
        p.was_in_range,
        !(s.tool_pen || s.eraser),
    ensures
        crate::output::windows_frame(p, s, max_x, max_y, max_pressure, screen) matches Some(f) && f.phase
            == crate::output::PointerPhase::Up && !f.in_range && !f.in_contact,
{
}

/// On macOS, a pen that leaves the tablet's proximity while its tip
/// touches first lifts the tip (a mouse-up without pressure), then leaves.
pub proof fn law_mac_pen_leaves_lifted(p: crate::output::MacPen, s: PenState)
    requires
        p.was_in_range,
        p.was_touching,
        !(s.tool_pen || s.eraser),
    ensures
        crate::output::mac_actions(p, s) == seq![
            crate::output::MacAction::Pointer {
                state: PenState { touch: false, pressure: 0, ..p.last },
                kind: crate::output::MouseKind::Up,
            },
            crate::output::MacAction::Proximity { entering: false, eraser: p.was_eraser },
        ],
{
    assert(crate::output::mac_actions(p, s) =~= seq![
        crate::output::MacAction::Pointer {
            state: PenState { touch: false, pressure: 0, ..p.last },
            kind: crate::output::MouseKind::Up,
        },
        crate::output::MacAction::Proximity { entering: false, eraser: p.was_eraser },
    ]);
}

/// On macOS, the tip is only ever remembered as touching while the pen is
/// in proximity.
pub proof fn law_mac_touch_implies_in_range(s: PenState)
    ensures
        mac_committed(s).was_touching ==> mac_committed(s).was_in_range,
{
}

/// Whether `a` is a tablet point posted as a mouse event of kind `k`.
pub open spec fn is_mouse(a: MacAction, k: MouseKind) -> bool {
    match a {
        MacAction::Pointer { kind, .. } => kind == k,
        _ => false,
    }
}

/// How many of `acts` are mouse events of kind `k`.
pub open spec fn mouse_count(acts: Seq<MacAction>, k: MouseKind) -> int
    decreases acts.len(),
{
    if acts.len() == 0 {
        0
    } else {
        (if is_mouse(acts[0], k) {
            1int
        } else {
            0int
        }) + mouse_count(acts.drop_first(), k)
    }
}

proof fn lemma_mouse_count_add(a: Seq<MacAction>, b: Seq<MacAction>, k: MouseKind)
    ensures
        mouse_count(a + b, k) == mouse_count(a, k) + mouse_count(b, k),
    decreases a.len(),
{
    if a.len() == 0 {
        assert(a + b =~= b);
    } else {
        assert((a + b).drop_first() =~= a.drop_first() + b);
        assert((a + b)[0] == a[0]);
        lemma_mouse_count_add(a.drop_first(), b, k);
    }
}

/// The events posted for a run of reports, starting from `p`: each report
/// posts its events, then is remembered.
pub open spec fn mac_run_actions(p: MacPen, states: Seq<PenState>) -> Seq<MacAction>
    decreases states.len(),
{
    if states.len() == 0 {
        Seq::empty()
    } else {
        mac_actions(p, states[0]) + mac_run_actions(mac_committed(states[0]), states.drop_first())
    }
}

/// What is remembered after a run of reports, starting from `p`.
pub open spec fn mac_run_end(p: MacPen, states: Seq<PenState>) -> MacPen
    decreases states.len(),
{
    if states.len() == 0 {
        p
    } else {
        mac_run_end(mac_committed(states[0]), states.drop_first())
    }
}

proof fn lemma_mac_report_balance(p: MacPen, s: PenState)
    requires
        p.was_touching ==> p.was_in_range,
    ensures
        mouse_count(mac_actions(p, s), MouseKind::Down) - mouse_count(mac_actions(p, s), MouseKind::Up)
            == (if mac_committed(s).was_touching { 1int } else { 0int }) - (if p.was_touching {
            1int
        } else {
            0int
        }),
{
    let acts = mac_actions(p, s);
    let in_range = s.tool_pen || s.eraser;
    reveal_with_fuel(mouse_count, 2);
    if in_range {
        let pre: Seq<MacAction> = if !p.was_in_range || s.eraser != p.was_eraser {
            seq![MacAction::Proximity { entering: true, eraser: s.eraser }]
        } else {
            Seq::empty()
        };
        let pt = seq![MacAction::Pointer { state: s, kind: mouse_kind(p, s) }];
        assert(acts == pre + pt);
        lemma_mouse_count_add(pre, pt, MouseKind::Down);
        lemma_mouse_count_add(pre, pt, MouseKind::Up);
    } else if p.was_in_range {
        let up: Seq<MacAction> = if p.was_touching {
            seq![
                MacAction::Pointer {
                    state: lifted(p.last),
                    kind: mouse_kind(p, lifted(p.last)),
                },
            ]
        } else {
            Seq::empty()
        };
        let px = seq![MacAction::Proximity { entering: false, eraser: p.was_eraser }];
        assert(acts == up + px);
        lemma_mouse_count_add(up, px, MouseKind::Down);
        lemma_mouse_count_add(up, px, MouseKind::Up);
    } else {
        assert(acts =~= Seq::<MacAction>::empty());
    }
}

/// On macOS, presses and releases of the mouse button stay balanced over
/// any run of reports: every press is followed by its release, and only a
/// tip that touches at the end holds one press open. (Reports are posted
/// and then remembered, from a state in which a touching tip is in
/// proximity, as every remembered state is.)
pub proof fn law_mac_clicks_balanced(p: MacPen, states: Seq<PenState>)
    requires
        p.was_touching ==> p.was_in_range,
    ensures
        mouse_count(mac_run_actions(p, states), MouseKind::Down) - mouse_count(
            mac_run_actions(p, states),
            MouseKind::Up,
        ) == (if mac_run_end(p, states).was_touching { 1int } else { 0int }) - (if p.was_touching {
            1int
        } else {
            0int
        }),
        mac_run_end(p, states).was_touching ==> mac_run_end(p, states).was_in_range,
    decreases states.len(),
{
    if states.len() > 0 {
        let s = states[0];
        let q = mac_committed(s);
        lemma_mac_report_balance(p, s);
        law_mac_clicks_balanced(q, states.drop_first());
        lemma_mouse_count_add(mac_actions(p, s), mac_run_actions(q, states.drop_first()), MouseKind::Down);
        lemma_mouse_count_add(mac_actions(p, s), mac_run_actions(q, states.drop_first()), MouseKind::Up);
    }
}

/// The contacts that the frame for `s` after `p` begins (1), ends (-1) or
/// leaves as they are (0): a frame that puts the pen down begins one, a
/// frame that lifts a touching pen ends it.
pub open spec fn contact_change(
    p: WindowsPen,
    s: PenState,
    max_x: i32,
    max_y: i32,
    max_pressure: i32,
    screen: ScreenArea,
) -> int {
    match windows_frame(p, s, max_x, max_y, max_pressure, screen) {
        Some(f) => if f.phase == PointerPhase::Down {
            1
        } else if f.phase == PointerPhase::Up && p.was_touching {
            -1
        } else {
            0
        },
        None => 0,
    }
}

/// The synthetic pen after a report of `s`: its frame, if any, injected,
/// then the report remembered.
pub open spec fn windows_after(
    p: WindowsPen,
    s: PenState,
    max_x: i32,
    max_y: i32,
    max_pressure: i32,
    screen: ScreenArea,
) -> WindowsPen {
    windows_committed(p, s, windows_frame(p, s, max_x, max_y, max_pressure, screen) is Some)
}

/// The contacts begun minus those ended over a run of reports.
pub open spec fn windows_run_contacts(
    p: WindowsPen,
    states: Seq<PenState>,
    max_x: i32,
    max_y: i32,
    max_pressure: i32,
    screen: ScreenArea,
) -> int
    decreases states.len(),
{
    if states.len() == 0 {
        0
    } else {
        contact_change(p, states[0], max_x, max_y, max_pressure, screen) + windows_run_contacts(
            windows_after(p, states[0], max_x, max_y, max_pressure, screen),
            states.drop_first(),
            max_x,
            max_y,
            max_pressure,
            screen,
        )
    }
}

/// The synthetic pen after a run of reports.
pub open spec fn windows_run_end(
    p: WindowsPen,
    states: Seq<PenState>,
    max_x: i32,
    max_y: i32,
    max_pressure: i32,
    screen: ScreenArea,
) -> WindowsPen
    decreases states.len(),
{
    if states.len() == 0 {
        p
    } else {
        windows_run_end(
            windows_after(p, states[0], max_x, max_y, max_pressure, screen),
            states.drop_first(),
            max_x,
            max_y,
            max_pressure,
            screen,
        )
    }
}

/// On Windows, contacts stay balanced over any run of reports in which the
/// tip touches only while the pen or the eraser is in range: every frame
/// that puts the pen down is followed by one that lifts it, and only a tip
/// that touches at the end holds a contact open.
pub proof fn law_windows_contacts_balanced(
    p: WindowsPen,
    states: Seq<PenState>,
    max_x: i32,
    max_y: i32,
    max_pressure: i32,
    screen: ScreenArea,
)
    requires
        p.was_touching ==> p.was_in_range,
        forall|i: int|
            0 <= i < states.len() ==> (#[trigger] states[i]).touch ==> (states[i].tool_pen
                || states[i].eraser),
    ensures
        windows_run_contacts(p, states, max_x, max_y, max_pressure, screen) == (if windows_run_end(
            p,
            states,
            max_x,
            max_y,
            max_pressure,
            screen,
        ).was_touching {
            1int
        } else {
            0int
        }) - (if p.was_touching {
            1int
        } else {
            0int
        }),
        windows_run_end(p, states, max_x, max_y, max_pressure, screen).was_touching
            ==> windows_run_end(p, states, max_x, max_y, max_pressure, screen).was_in_range,
    decreases states.len(),
{
    if states.len() > 0 {
        let s = states[0];
        assert(s.touch ==> (s.tool_pen || s.eraser));
        let q = windows_after(p, s, max_x, max_y, max_pressure, screen);
        let rest = states.drop_first();
        assert forall|i: int| 0 <= i < rest.len() && (#[trigger] rest[i]).touch implies (
        rest[i].tool_pen || rest[i].eraser) by {
            assert(rest[i] == states[i + 1]);
        }
        law_windows_contacts_balanced(q, rest, max_x, max_y, max_pressure, screen);
    }
}

// ---------------------------------------------------------------------------
// The models
// ---------------------------------------------------------------------------

/// The digitizer ranges of the reMarkable 1 and 2.
pub open spec fn rm_profile() -> (i32, i32, i32) {
    (20967, 15725, 4095)
}

/// The landscape rotation of a known model makes it wider than tall: the
/// reMarkable 1 and 2, whose digitizer is already landscape, keep their
/// coordinates (rotation 0); the Paper Pro family, whose digitizer is
/// portrait, is turned by 90 degrees. (For a name that claims both a
/// reMarkable 1 or 2 and a Paper Pro model, no such promise is made.)
pub proof fn law_landscape_is_wider_than_tall(model: Seq<char>)
    requires
        crate::device::profile(model) is Some,
        !(crate::device::is_rm1_or_rm2(model) && crate::device::has_rotation_sensor(model)),
    ensures
        crate::device::profile(model) == Some(rm_profile()) ==> landscape_of(model) == 0,
        crate::device::profile(model) != Some(rm_profile()) ==> landscape_of(model) == 90,
        ({
            let p = crate::device::profile(model)->0;
            let o = ranges_for(p.0, p.1, landscape_of(model));
            o.0 > o.1
        }),
{
}

/// Every known model but the reMarkable 1 and 2 (the Paper Pro family:
/// Ferrari, Chiappa, Tatsu) has the rotation sensor, so automatic rotation
/// is refused for a known model only when it is a reMarkable 1 or 2.
pub proof fn law_paper_pro_models_have_rotation_sensor(model: Seq<char>)
    requires
        crate::device::profile(model) is Some,
        crate::device::profile(model) != Some(rm_profile()),
    ensures
        crate::device::has_rotation_sensor(model),
{
}

/// The header line `RAT1<TAB>BITS<TAB>PATH<TAB>MODEL` that the tablet side
/// prints, ended by a line feed.
pub open spec fn header_text(bits: Seq<char>, path: Seq<char>, model: Seq<char>) -> Seq<char> {
    "RAT1"@ + seq!['\t'] + bits + seq!['\t'] + path + seq!['\t'] + model + seq!['\n']
}

/// A 64-bit tablet sends 24-byte evdev records and a 32-bit one 16-byte
/// records: the header's word size alone decides the record size, the path
/// is passed on as it is, and with all three ranges given the header is
/// accepted whatever the model.
pub proof fn law_word_size_sets_record_size(
    bits: Seq<char>,
    path: Seq<char>,
    model: Seq<char>,
    max_x: Option<i32>,
    max_y: Option<i32>,
    max_pressure: Option<i32>,
)
    requires
        bits == "32"@ || bits == "64"@,
        forall|k: int| 0 <= k < path.len() ==> path[k] != '\t',
        forall|k: int| 0 <= k < model.len() ==> model[k] != '\t' && model[k] != '\r' && model[k] != '\n',
    ensures
        ({
            let r = crate::device::header_result(header_text(bits, path, model), max_x, max_y, max_pressure);
            &&& r matches Ok(d) ==> d.2 == (if bits == "64"@ { 24usize } else { 16usize })
            &&& r matches Ok(d) ==> d.1 == path
            &&& (max_x is Some && max_y is Some && max_pressure is Some) ==> r is Ok
        }),
{
    reveal_strlit("RAT1");
    reveal_strlit("32");
    reveal_strlit("64");
    let h = header_text(bits, path, model);
    let t = "RAT1"@ + seq!['\t'] + bits + seq!['\t'] + path + seq!['\t'] + model;
    assert(h =~= t + seq!['\n']);
    let le = |c: char| crate::device::is_line_end(c);
    assert(h[h.len() - 2] == t[t.len() - 1]);
    crate::text::lemma_trailing(h, le, h.len() - 1);
    assert(crate::device::header_line(h) =~= t);
    let tab = crate::text::other_than('\t');
    crate::text::lemma_leading(t, tab, 4);
    let r1 = t.subrange(5, t.len() as int);
    assert(r1 =~= bits + seq!['\t'] + path + seq!['\t'] + model);
    crate::text::lemma_leading(r1, tab, 2);
    let r2 = r1.subrange(3, r1.len() as int);
    assert(r2 =~= path + seq!['\t'] + model);
    crate::text::lemma_leading(r2, tab, path.len() as int);
    assert(t.subrange(0, 4) =~= "RAT1"@);
    assert(r1.subrange(0, 2) =~= bits);
    assert(r2.subrange(0, path.len() as int) =~= path);
    assert(r2.subrange(path.len() as int + 1, r2.len() as int) =~= model);
}

proof fn lemma_scale_whole_range(m: int, t: int)
    requires
        m > 0,
        t >= 0,
    ensures
        scaled(m, m, t) == t,
        scaled(0, m, t) == 0,
{
    assert((m * t) / m == t) by (nonlinear_arith)
        requires
            m > 0,
            t >= 0,
    ;
    assert(m * t >= 0) by (nonlinear_arith)
        requires
            m > 0,
            t >= 0,
    ;
    assert(0 * t == 0);
    assert(0int / m == 0) by (nonlinear_arith)
        requires
            m > 0,
    ;
}

/// On Windows each axis of the pen is mapped from its own range onto the
/// desktop: the frame's x follows the pen's x over `max_x` across the
/// desktop's width, whatever `max_y` is, and its y the pen's y over `max_y`
/// down its height, whatever `max_x` is; so a pen at the digitizer's
/// origin lands on the desktop's top-left pixel and one at
/// `(max_x, max_y)` on its bottom-right pixel.
pub proof fn law_windows_frame_maps_each_axis(
    p: WindowsPen,
    s: PenState,
    max_x: i32,
    max_y: i32,
    max_pressure: i32,
    screen: ScreenArea,
    other_max_x: i32,
    other_max_y: i32,
)
    requires
        crate::output::frame_fits(max_x, max_y, max_pressure, screen),
        other_max_x > 0,
        other_max_y > 0,
        s.tool_pen || s.eraser || p.was_in_range,
    ensures
        ({
            let f = windows_frame(p, s, max_x, max_y, max_pressure, screen)->Some_0;
            let fy = windows_frame(p, s, max_x, other_max_y, max_pressure, screen)->Some_0;
            let fx = windows_frame(p, s, other_max_x, max_y, max_pressure, screen)->Some_0;
            &&& windows_frame(p, s, max_x, max_y, max_pressure, screen) is Some
            &&& fy.x == f.x
            &&& fx.y == f.y
            &&& (s.x == max_x ==> f.x == screen.x + screen.width - 1)
            &&& (s.y == max_y ==> f.y == screen.y + screen.height - 1)
            &&& (s.x == 0 ==> f.x == screen.x)
            &&& (s.y == 0 ==> f.y == screen.y)
        }),
{
    lemma_scale_whole_range(max_x as int, screen.width - 1);
    lemma_scale_whole_range(max_y as int, screen.height - 1);
}

// ---------------------------------------------------------------------------
// The options of the command line
// ---------------------------------------------------------------------------

/// `r` with `t` applied to the command line it holds.
pub open spec fn map_args(
    r: Result<ArgsModel, Seq<char>>,
    t: spec_fn(ArgsModel) -> ArgsModel,
) -> Result<ArgsModel, Seq<char>> {
    match r {
        Ok(a) => Ok(t(a)),
        Err(e) => Err(e),
    }
}

/// Reading any option of `w` commutes with `t`: it ends with the same error,
/// or it goes on at the same word with `t` applied to what it gives.
pub open spec fn step_commutes(w: Seq<Seq<char>>, t: spec_fn(ArgsModel) -> ArgsModel) -> bool {
    forall|j: nat, m: ArgsModel|
        j < w.len() ==> #[trigger] step(w, j, t(m)) == match step(w, j, m) {
            Step::Next(k, n) => Step::Next(k, t(n)),
            Step::Stop(e) => Step::Stop(e),
        }
}

proof fn lemma_read_commutes(
    w: Seq<Seq<char>>,
    i: nat,
    a: ArgsModel,
    t: spec_fn(ArgsModel) -> ArgsModel,
)
    requires
        step_commutes(w, t),
    ensures
        read_options(w, i, t(a)) == map_args(read_options(w, i, a), t),
    decreases w.len() - i,
{
    if i < w.len() {
        assert(step(w, i, t(a)) == match step(w, i, a) {
            Step::Next(k, n) => Step::Next(k, t(n)),
            Step::Stop(e) => Step::Stop(e),
        });
        match step(w, i, a) {
            Step::Next(k, n) => {
                if k > i {
                    lemma_read_commutes(w, k, n, t);
                }
            },
            Step::Stop(e) => {},
        }
    }
}

proof fn lemma_read_shift(pre: Seq<Seq<char>>, w: Seq<Seq<char>>, i: nat, a: ArgsModel)
    ensures
        read_options(pre + w, i + pre.len(), a) == read_options(w, i, a),
    decreases w.len() - i,
{
    let v = pre + w;
    let n = pre.len();
    if i < w.len() {
        assert(v[(i + n) as int] == w[i as int]);
        if i + 1 < w.len() {
            assert(v[(i + n + 1) as int] == w[(i + 1) as int]);
        }
        match step(w, i, a) {
            Step::Next(k, b) => {
                assert(step(v, i + n, a) == Step::Next((k + n) as nat, b));
                if k > i {
                    lemma_read_shift(pre, w, k, b);
                }
            },
            Step::Stop(e) => {
                assert(step(v, i + n, a) == Step::Stop(e));
            },
        }
    }
}


/// Turns on verbose output.
pub open spec fn with_verbose(a: ArgsModel) -> ArgsModel {
    ArgsModel { verbose: true, ..a }
}

/// `-v` and `--verbose` in front of any command line turn on verbose output
/// and change nothing else: the rest parses as it would alone.
pub proof fn law_verbose_option(flag: Seq<char>, w: Seq<Seq<char>>)
    requires
        flag == "-v"@ || flag == "--verbose"@,
    ensures
        parsed_args(seq![flag] + w) == map_args(parsed_args(w), |a: ArgsModel| with_verbose(a)),
{
    let t = |a: ArgsModel| with_verbose(a);
    reveal_strlit("--host");
    reveal_strlit("--key");
    reveal_strlit("--device");
    reveal_strlit("--max-x");
    reveal_strlit("--max-y");
    reveal_strlit("--max-pressure");
    reveal_strlit("--rotate");
    reveal_strlit("--auto-rotate");
    reveal_strlit("--headless");
    reveal_strlit("-v");
    reveal_strlit("--verbose");
    reveal_strlit("-h");
    reveal_strlit("--help");
    assert("--host"@.len() == 6 && "--host"@[2] == 'h' && "--host"@[3] == 'o');
    assert("--key"@.len() == 5);
    assert("--device"@.len() == 8 && "--device"@[2] == 'd');
    assert("--max-x"@.len() == 7 && "--max-x"@[6] == 'x');
    assert("--max-y"@.len() == 7 && "--max-y"@[6] == 'y');
    assert("--max-pressure"@.len() == 14);
    assert("--rotate"@.len() == 8 && "--rotate"@[2] == 'r');
    assert("--auto-rotate"@.len() == 13);
    assert("--headless"@.len() == 10);
    assert("-v"@.len() == 2 && "-v"@[1] == 'v');
    assert("--verbose"@.len() == 9);
    assert("-h"@.len() == 2 && "-h"@[1] == 'h');
    assert("--help"@.len() == 6 && "--help"@[3] == 'e');
    let pre = seq![flag];
    let v = pre + w;
    assert(v[0] == flag);
    assert(step(v, 0, default_model()) == Step::Next(1, t(default_model())));
    lemma_read_shift(pre, w, 0, t(default_model()));
    assert forall|j: nat, m: ArgsModel| j < w.len() implies #[trigger] step(w, j, t(m)) == match step(w, j, m) {
        Step::Next(k, n) => Step::Next(k, t(n)),
        Step::Stop(e) => Step::Stop(e),
    } by {}
    lemma_read_commutes(w, 0, default_model(), t);
}

/// Runs without the panel.
pub open spec fn with_headless(a: ArgsModel) -> ArgsModel {
    ArgsModel { headless: true, ..a }
}

/// Follows the rotation sensor.
pub open spec fn with_auto_rotate(a: ArgsModel) -> ArgsModel {
    ArgsModel { auto_rotate: true, ..a }
}

/// Uses the key file `k` unless one is named later.
pub open spec fn with_key(a: ArgsModel, k: Seq<char>) -> ArgsModel {
    ArgsModel { key: or_else(a.key, Some(k)), ..a }
}

/// Uses `v` as the range of x unless one is given later.
pub open spec fn with_max_x(a: ArgsModel, v: i32) -> ArgsModel {
    ArgsModel { max_x: or_else(a.max_x, Some(v)), ..a }
}

/// Uses `v` as the range of y unless one is given later.
pub open spec fn with_max_y(a: ArgsModel, v: i32) -> ArgsModel {
    ArgsModel { max_y: or_else(a.max_y, Some(v)), ..a }
}

/// Uses `v` as the range of pressure unless one is given later.
pub open spec fn with_max_pressure(a: ArgsModel, v: i32) -> ArgsModel {
    ArgsModel { max_pressure: or_else(a.max_pressure, Some(v)), ..a }
}

/// Uses the fixed rotation `r` unless one is given later.
pub open spec fn with_rotate(a: ArgsModel, r: u16) -> ArgsModel {
    ArgsModel { rotate: or_else(a.rotate, Some(r)), ..a }
}

/// Uses the device `d` unless one is given later.
pub open spec fn with_device(a: ArgsModel, d: Seq<char>) -> ArgsModel {
    ArgsModel { device: or_else(a.device, Some(d)), ..a }
}

/// `--headless` in front of any command line runs without the panel and
/// changes nothing else.
pub proof fn law_headless_option(w: Seq<Seq<char>>)
    ensures
        parsed_args(seq!["--headless"@] + w) == map_args(parsed_args(w), |a: ArgsModel| with_headless(a)),
{
    let t = |a: ArgsModel| with_headless(a);
    reveal_strlit("--host");
    reveal_strlit("--key");
    reveal_strlit("--device");
    reveal_strlit("--max-x");
    reveal_strlit("--max-y");
    reveal_strlit("--max-pressure");
    reveal_strlit("--rotate");
    reveal_strlit("--auto-rotate");
    reveal_strlit("--headless");
    reveal_strlit("-v");
    reveal_strlit("--verbose");
    reveal_strlit("-h");
    reveal_strlit("--help");
    assert("--host"@.len() == 6 && "--host"@[2] == 'h' && "--host"@[3] == 'o');
    assert("--key"@.len() == 5);
    assert("--device"@.len() == 8 && "--device"@[2] == 'd');
    assert("--max-x"@.len() == 7 && "--max-x"@[6] == 'x');
    assert("--max-y"@.len() == 7 && "--max-y"@[6] == 'y');
    assert("--max-pressure"@.len() == 14);
    assert("--rotate"@.len() == 8 && "--rotate"@[2] == 'r');
    assert("--auto-rotate"@.len() == 13);
    assert("--headless"@.len() == 10);
    assert("-v"@.len() == 2 && "-v"@[1] == 'v');
    assert("--verbose"@.len() == 9);
    assert("-h"@.len() == 2 && "-h"@[1] == 'h');
    assert("--help"@.len() == 6 && "--help"@[3] == 'e');
    let pre = seq!["--headless"@];
    let v = pre + w;
    assert(v[0] == "--headless"@);
    assert(step(v, 0, default_model()) == Step::Next(1, t(default_model())));
    lemma_read_shift(pre, w, 0, t(default_model()));
    assert forall|j: nat, m: ArgsModel| j < w.len() implies #[trigger] step(w, j, t(m)) == match step(w, j, m) {
        Step::Next(k, n) => Step::Next(k, t(n)),
        Step::Stop(e) => Step::Stop(e),
    } by {}
    lemma_read_commutes(w, 0, default_model(), t);
}

/// `--auto-rotate` in front of any command line follows the rotation
/// sensor, and is refused together with a fixed rotation; nothing else
/// changes.
pub proof fn law_auto_rotate_option(w: Seq<Seq<char>>)
    ensures
        parsed_args(seq!["--auto-rotate"@] + w) == match parsed_args(w) {
            Ok(a) => if a.rotate is Some {
                Err(crate::args::conflict_error())
            } else {
                Ok(with_auto_rotate(a))
            },
            Err(e) => Err(e),
        },
{
    let t = |a: ArgsModel| with_auto_rotate(a);
    reveal_strlit("--host");
    reveal_strlit("--key");
    reveal_strlit("--device");
    reveal_strlit("--max-x");
    reveal_strlit("--max-y");
    reveal_strlit("--max-pressure");
    reveal_strlit("--rotate");
    reveal_strlit("--auto-rotate");
    reveal_strlit("--headless");
    reveal_strlit("-v");
    reveal_strlit("--verbose");
    reveal_strlit("-h");
    reveal_strlit("--help");
    assert("--host"@.len() == 6 && "--host"@[2] == 'h' && "--host"@[3] == 'o');
    assert("--key"@.len() == 5);
    assert("--device"@.len() == 8 && "--device"@[2] == 'd');
    assert("--max-x"@.len() == 7 && "--max-x"@[6] == 'x');
    assert("--max-y"@.len() == 7 && "--max-y"@[6] == 'y');
    assert("--max-pressure"@.len() == 14);
    assert("--rotate"@.len() == 8 && "--rotate"@[2] == 'r');
    assert("--auto-rotate"@.len() == 13);
    assert("--headless"@.len() == 10);
    assert("-v"@.len() == 2 && "-v"@[1] == 'v');
    assert("--verbose"@.len() == 9);
    assert("-h"@.len() == 2 && "-h"@[1] == 'h');
    assert("--help"@.len() == 6 && "--help"@[3] == 'e');
    let pre = seq!["--auto-rotate"@];
    let v = pre + w;
    assert(v[0] == "--auto-rotate"@);
    assert(step(v, 0, default_model()) == Step::Next(1, t(default_model())));
    lemma_read_shift(pre, w, 0, t(default_model()));
    assert forall|j: nat, m: ArgsModel| j < w.len() implies #[trigger] step(w, j, t(m)) == match step(w, j, m) {
        Step::Next(k, n) => Step::Next(k, t(n)),
        Step::Stop(e) => Step::Stop(e),
    } by {}
    lemma_read_commutes(w, 0, default_model(), t);
}

/// `--key FILE` in front of any command line uses that key file unless a
/// later `--key` names another, and changes nothing else.
pub proof fn law_key_option(k: Seq<char>, w: Seq<Seq<char>>)
    ensures
        parsed_args(seq!["--key"@, k] + w) == map_args(parsed_args(w), |a: ArgsModel| with_key(a, k)),
{
    let t = |a: ArgsModel| with_key(a, k);
    reveal_strlit("--host");
    reveal_strlit("--key");
    reveal_strlit("--device");
    reveal_strlit("--max-x");
    reveal_strlit("--max-y");
    reveal_strlit("--max-pressure");
    reveal_strlit("--rotate");
    reveal_strlit("--auto-rotate");
    reveal_strlit("--headless");
    reveal_strlit("-v");
    reveal_strlit("--verbose");
    reveal_strlit("-h");
    reveal_strlit("--help");
    assert("--host"@.len() == 6 && "--host"@[2] == 'h' && "--host"@[3] == 'o');
    assert("--key"@.len() == 5);
    assert("--device"@.len() == 8 && "--device"@[2] == 'd');
    assert("--max-x"@.len() == 7 && "--max-x"@[6] == 'x');
    assert("--max-y"@.len() == 7 && "--max-y"@[6] == 'y');
    assert("--max-pressure"@.len() == 14);
    assert("--rotate"@.len() == 8 && "--rotate"@[2] == 'r');
    assert("--auto-rotate"@.len() == 13);
    assert("--headless"@.len() == 10);
    assert("-v"@.len() == 2 && "-v"@[1] == 'v');
    assert("--verbose"@.len() == 9);
    assert("-h"@.len() == 2 && "-h"@[1] == 'h');
    assert("--help"@.len() == 6 && "--help"@[3] == 'e');
    let pre = seq!["--key"@, k];
    let v = pre + w;
    assert(v[0] == "--key"@ && v[1] == k);
    assert(step(v, 0, default_model()) == Step::Next(2, t(default_model())));
    lemma_read_shift(pre, w, 0, t(default_model()));
    assert forall|j: nat, m: ArgsModel| j < w.len() implies #[trigger] step(w, j, t(m)) == match step(w, j, m) {
        Step::Next(k, n) => Step::Next(k, t(n)),
        Step::Stop(e) => Step::Stop(e),
    } by {}
    lemma_read_commutes(w, 0, default_model(), t);
}

/// `--max-x N` in front of any command line: a value that is not a positive
/// integer is refused with its error, else it is the range unless a later
/// `--max-x` gives another, and nothing else changes.
pub proof fn law_max_x_option(value: Seq<char>, w: Seq<Seq<char>>)
    ensures
        parsed_args(seq!["--max-x"@, value] + w) == match positive_value(value) {
            Err(e) => Err(e),
            Ok(n) => map_args(parsed_args(w), |a: ArgsModel| with_max_x(a, n)),
        },
{
    reveal_strlit("--host");
    reveal_strlit("--key");
    reveal_strlit("--device");
    reveal_strlit("--max-x");
    reveal_strlit("--max-y");
    reveal_strlit("--max-pressure");
    reveal_strlit("--rotate");
    reveal_strlit("--auto-rotate");
    reveal_strlit("--headless");
    reveal_strlit("-v");
    reveal_strlit("--verbose");
    reveal_strlit("-h");
    reveal_strlit("--help");
    assert("--host"@.len() == 6 && "--host"@[2] == 'h' && "--host"@[3] == 'o');
    assert("--key"@.len() == 5);
    assert("--device"@.len() == 8 && "--device"@[2] == 'd');
    assert("--max-x"@.len() == 7 && "--max-x"@[6] == 'x');
    assert("--max-y"@.len() == 7 && "--max-y"@[6] == 'y');
    assert("--max-pressure"@.len() == 14);
    assert("--rotate"@.len() == 8 && "--rotate"@[2] == 'r');
    assert("--auto-rotate"@.len() == 13);
    assert("--headless"@.len() == 10);
    assert("-v"@.len() == 2 && "-v"@[1] == 'v');
    assert("--verbose"@.len() == 9);
    assert("-h"@.len() == 2 && "-h"@[1] == 'h');
    assert("--help"@.len() == 6 && "--help"@[3] == 'e');
    let pre = seq!["--max-x"@, value];
    let v = pre + w;
    assert(v[0] == "--max-x"@ && v[1] == value);
    match positive_value(value) {
        Err(e) => {
            assert(step(v, 0, default_model()) == Step::Stop(e));
        },
        Ok(n) => {
            let t = |a: ArgsModel| with_max_x(a, n);
            assert(step(v, 0, default_model()) == Step::Next(2, t(default_model())));
            lemma_read_shift(pre, w, 0, t(default_model()));
            assert forall|j: nat, m: ArgsModel| j < w.len() implies #[trigger] step(w, j, t(m)) == match step(w, j, m) {
                Step::Next(k, n) => Step::Next(k, t(n)),
                Step::Stop(e) => Step::Stop(e),
            } by {}
            lemma_read_commutes(w, 0, default_model(), t);
        },
    }
}

/// `--max-y N` in front of any command line: a value that is not a positive
/// integer is refused with its error, else it is the range unless a later
/// `--max-y` gives another, and nothing else changes.
pub proof fn law_max_y_option(value: Seq<char>, w: Seq<Seq<char>>)
    ensures
        parsed_args(seq!["--max-y"@, value] + w) == match positive_value(value) {
            Err(e) => Err(e),
            Ok(n) => map_args(parsed_args(w), |a: ArgsModel| with_max_y(a, n)),
        },
{
    reveal_strlit("--host");
    reveal_strlit("--key");
    reveal_strlit("--device");
    reveal_strlit("--max-x");
    reveal_strlit("--max-y");
    reveal_strlit("--max-pressure");
    reveal_strlit("--rotate");
    reveal_strlit("--auto-rotate");
    reveal_strlit("--headless");
    reveal_strlit("-v");
    reveal_strlit("--verbose");
    reveal_strlit("-h");
    reveal_strlit("--help");
    assert("--host"@.len() == 6 && "--host"@[2] == 'h' && "--host"@[3] == 'o');
    assert("--key"@.len() == 5);
    assert("--device"@.len() == 8 && "--device"@[2] == 'd');
    assert("--max-x"@.len() == 7 && "--max-x"@[6] == 'x');
    assert("--max-y"@.len() == 7 && "--max-y"@[6] == 'y');
    assert("--max-pressure"@.len() == 14);
    assert("--rotate"@.len() == 8 && "--rotate"@[2] == 'r');
    assert("--auto-rotate"@.len() == 13);
    assert("--headless"@.len() == 10);
    assert("-v"@.len() == 2 && "-v"@[1] == 'v');
    assert("--verbose"@.len() == 9);
    assert("-h"@.len() == 2 && "-h"@[1] == 'h');
    assert("--help"@.len() == 6 && "--help"@[3] == 'e');
    let pre = seq!["--max-y"@, value];
    let v = pre + w;
    assert(v[0] == "--max-y"@ && v[1] == value);
    match positive_value(value) {
        Err(e) => {
            assert(step(v, 0, default_model()) == Step::Stop(e));
        },
        Ok(n) => {
            let t = |a: ArgsModel| with_max_y(a, n);
            assert(step(v, 0, default_model()) == Step::Next(2, t(default_model())));
            lemma_read_shift(pre, w, 0, t(default_model()));
            assert forall|j: nat, m: ArgsModel| j < w.len() implies #[trigger] step(w, j, t(m)) == match step(w, j, m) {
                Step::Next(k, n) => Step::Next(k, t(n)),
                Step::Stop(e) => Step::Stop(e),
            } by {}
            lemma_read_commutes(w, 0, default_model(), t);
        },
    }
}

/// `--max-pressure N` in front of any command line: a value that is not a positive
/// integer is refused with its error, else it is the range unless a later
/// `--max-pressure` gives another, and nothing else changes.
pub proof fn law_max_pressure_option(value: Seq<char>, w: Seq<Seq<char>>)
    ensures
        parsed_args(seq!["--max-pressure"@, value] + w) == match positive_value(value) {
            Err(e) => Err(e),
            Ok(n) => map_args(parsed_args(w), |a: ArgsModel| with_max_pressure(a, n)),
        },
{
    reveal_strlit("--host");
    reveal_strlit("--key");
    reveal_strlit("--device");
    reveal_strlit("--max-x");
    reveal_strlit("--max-y");
    reveal_strlit("--max-pressure");
    reveal_strlit("--rotate");
    reveal_strlit("--auto-rotate");
    reveal_strlit("--headless");
    reveal_strlit("-v");
    reveal_strlit("--verbose");
    reveal_strlit("-h");
    reveal_strlit("--help");
    assert("--host"@.len() == 6 && "--host"@[2] == 'h' && "--host"@[3] == 'o');
    assert("--key"@.len() == 5);
    assert("--device"@.len() == 8 && "--device"@[2] == 'd');
    assert("--max-x"@.len() == 7 && "--max-x"@[6] == 'x');
    assert("--max-y"@.len() == 7 && "--max-y"@[6] == 'y');
    assert("--max-pressure"@.len() == 14);
    assert("--rotate"@.len() == 8 && "--rotate"@[2] == 'r');
    assert("--auto-rotate"@.len() == 13);
    assert("--headless"@.len() == 10);
    assert("-v"@.len() == 2 && "-v"@[1] == 'v');
    assert("--verbose"@.len() == 9);
    assert("-h"@.len() == 2 && "-h"@[1] == 'h');
    assert("--help"@.len() == 6 && "--help"@[3] == 'e');
    let pre = seq!["--max-pressure"@, value];
    let v = pre + w;
    assert(v[0] == "--max-pressure"@ && v[1] == value);
    match positive_value(value) {
        Err(e) => {
            assert(step(v, 0, default_model()) == Step::Stop(e));
        },
        Ok(n) => {
            let t = |a: ArgsModel| with_max_pressure(a, n);
            assert(step(v, 0, default_model()) == Step::Next(2, t(default_model())));
            lemma_read_shift(pre, w, 0, t(default_model()));
            assert forall|j: nat, m: ArgsModel| j < w.len() implies #[trigger] step(w, j, t(m)) == match step(w, j, m) {
                Step::Next(k, n) => Step::Next(k, t(n)),
                Step::Stop(e) => Step::Stop(e),
            } by {}
            lemma_read_commutes(w, 0, default_model(), t);
        },
    }
}

/// `--rotate DEGREES` in front of any command line: anything but 0, 90, 180
/// or 270 is refused, else it is the fixed rotation unless a later
/// `--rotate` gives another, and it is refused together with
/// `--auto-rotate`; nothing else changes.
pub proof fn law_rotate_option(value: Seq<char>, w: Seq<Seq<char>>)
    ensures
        parsed_args(seq!["--rotate"@, value] + w) == match parse_u16_spec(value) {
            Some(r) => if valid_rotation(r) {
                match parsed_args(w) {
                    Ok(a) => if a.auto_rotate {
                        Err(crate::args::conflict_error())
                    } else {
                        Ok(with_rotate(a, r))
                    },
                    Err(e) => Err(e),
                }
            } else {
                Err(crate::args::rotate_error())
            },
            None => Err(crate::args::rotate_error()),
        },
{
    reveal_strlit("--host");
    reveal_strlit("--key");
    reveal_strlit("--device");
    reveal_strlit("--max-x");
    reveal_strlit("--max-y");
    reveal_strlit("--max-pressure");
    reveal_strlit("--rotate");
    reveal_strlit("--auto-rotate");
    reveal_strlit("--headless");
    reveal_strlit("-v");
    reveal_strlit("--verbose");
    reveal_strlit("-h");
    reveal_strlit("--help");
    assert("--host"@.len() == 6 && "--host"@[2] == 'h' && "--host"@[3] == 'o');
    assert("--key"@.len() == 5);
    assert("--device"@.len() == 8 && "--device"@[2] == 'd');
    assert("--max-x"@.len() == 7 && "--max-x"@[6] == 'x');
    assert("--max-y"@.len() == 7 && "--max-y"@[6] == 'y');
    assert("--max-pressure"@.len() == 14);
    assert("--rotate"@.len() == 8 && "--rotate"@[2] == 'r');
    assert("--auto-rotate"@.len() == 13);
    assert("--headless"@.len() == 10);
    assert("-v"@.len() == 2 && "-v"@[1] == 'v');
    assert("--verbose"@.len() == 9);
    assert("-h"@.len() == 2 && "-h"@[1] == 'h');
    assert("--help"@.len() == 6 && "--help"@[3] == 'e');
    let pre = seq!["--rotate"@, value];
    let v = pre + w;
    assert(v[0] == "--rotate"@ && v[1] == value);
    match parse_u16_spec(value) {
        Some(r) => if valid_rotation(r) {
            let t = |a: ArgsModel| with_rotate(a, r);
            assert(step(v, 0, default_model()) == Step::Next(2, t(default_model())));
            lemma_read_shift(pre, w, 0, t(default_model()));
            assert forall|j: nat, m: ArgsModel| j < w.len() implies #[trigger] step(w, j, t(m)) == match step(w, j, m) {
                Step::Next(k, n) => Step::Next(k, t(n)),
                Step::Stop(e) => Step::Stop(e),
            } by {}
            lemma_read_commutes(w, 0, default_model(), t);
        } else {
            assert(step(v, 0, default_model()) == Step::Stop(crate::args::rotate_error()));
        },
        None => {
            assert(step(v, 0, default_model()) == Step::Stop(crate::args::rotate_error()));
        },
    }
}

/// `--device PATH` in front of any command line: a path of the form
/// `/dev/input/eventN` is the device unless a later `--device` names
/// another, and nothing else changes; alone, any other path is refused.
pub proof fn law_device_option(d: Seq<char>, w: Seq<Seq<char>>)
    ensures
        crate::args::is_event_device(d) ==> parsed_args(seq!["--device"@, d] + w) == map_args(
            parsed_args(w),
            |a: ArgsModel| with_device(a, d),
        ),
        !crate::args::is_event_device(d) ==> parsed_args(seq!["--device"@, d]) == Err::<
            ArgsModel,
            Seq<char>,
        >(crate::args::device_error()),
{
    let t = |a: ArgsModel| with_device(a, d);
    reveal_strlit("--host");
    reveal_strlit("--key");
    reveal_strlit("--device");
    reveal_strlit("--max-x");
    reveal_strlit("--max-y");
    reveal_strlit("--max-pressure");
    reveal_strlit("--rotate");
    reveal_strlit("--auto-rotate");
    reveal_strlit("--headless");
    reveal_strlit("-v");
    reveal_strlit("--verbose");
    reveal_strlit("-h");
    reveal_strlit("--help");
    assert("--host"@.len() == 6 && "--host"@[2] == 'h' && "--host"@[3] == 'o');
    assert("--key"@.len() == 5);
    assert("--device"@.len() == 8 && "--device"@[2] == 'd');
    assert("--max-x"@.len() == 7 && "--max-x"@[6] == 'x');
    assert("--max-y"@.len() == 7 && "--max-y"@[6] == 'y');
    assert("--max-pressure"@.len() == 14);
    assert("--rotate"@.len() == 8 && "--rotate"@[2] == 'r');
    assert("--auto-rotate"@.len() == 13);
    assert("--headless"@.len() == 10);
    assert("-v"@.len() == 2 && "-v"@[1] == 'v');
    assert("--verbose"@.len() == 9);
    assert("-h"@.len() == 2 && "-h"@[1] == 'h');
    assert("--help"@.len() == 6 && "--help"@[3] == 'e');
    let pre = seq!["--device"@, d];
    let v = pre + w;
    assert(v[0] == "--device"@ && v[1] == d);
    assert(step(v, 0, default_model()) == Step::Next(2, t(default_model())));
    lemma_read_shift(pre, w, 0, t(default_model()));
    assert forall|j: nat, m: ArgsModel| j < w.len() implies #[trigger] step(w, j, t(m)) == match step(w, j, m) {
        Step::Next(k, n) => Step::Next(k, t(n)),
        Step::Stop(e) => Step::Stop(e),
    } by {}
    lemma_read_commutes(w, 0, default_model(), t);
    assert(pre[0] == "--device"@ && pre[1] == d);
    assert(step(pre, 0, default_model()) == Step::Next(2, t(default_model())));
    assert(read_options(pre, 2, t(default_model())) == Ok::<ArgsModel, Seq<char>>(t(default_model())));
    assert(read_options(pre, 0, default_model()) == Ok::<ArgsModel, Seq<char>>(t(default_model())));
}

/// `--host TARGET` alone: the target as normalization gives it, marked as
/// given, or normalization's error.
pub proof fn law_host_option(target: Seq<char>)
    ensures
        parsed_args(seq!["--host"@, target]) == match normalized_host(target) {
            Ok(h) => Ok(ArgsModel { host: h, host_explicit: true, ..default_model() }),
            Err(e) => Err(e),
        },
{
    reveal_strlit("--host");
    reveal_strlit("--key");
    reveal_strlit("--device");
    reveal_strlit("--max-x");
    reveal_strlit("--max-y");
    reveal_strlit("--max-pressure");
    reveal_strlit("--rotate");
    reveal_strlit("--auto-rotate");
    reveal_strlit("--headless");
    reveal_strlit("-v");
    reveal_strlit("--verbose");
    reveal_strlit("-h");
    reveal_strlit("--help");
    assert("--host"@.len() == 6 && "--host"@[2] == 'h' && "--host"@[3] == 'o');
    assert("--key"@.len() == 5);
    assert("--device"@.len() == 8 && "--device"@[2] == 'd');
    assert("--max-x"@.len() == 7 && "--max-x"@[6] == 'x');
    assert("--max-y"@.len() == 7 && "--max-y"@[6] == 'y');
    assert("--max-pressure"@.len() == 14);
    assert("--rotate"@.len() == 8 && "--rotate"@[2] == 'r');
    assert("--auto-rotate"@.len() == 13);
    assert("--headless"@.len() == 10);
    assert("-v"@.len() == 2 && "-v"@[1] == 'v');
    assert("--verbose"@.len() == 9);
    assert("-h"@.len() == 2 && "-h"@[1] == 'h');
    assert("--help"@.len() == 6 && "--help"@[3] == 'e');
    let v = seq!["--host"@, target];
    let m = ArgsModel { host: target, host_explicit: true, ..default_model() };
    assert(v[0] == "--host"@ && v[1] == target);
    assert(step(v, 0, default_model()) == Step::Next(2, m));
    assert(read_options(v, 2, m) == Ok::<ArgsModel, Seq<char>>(m));
    assert(read_options(v, 0, default_model()) == Ok::<ArgsModel, Seq<char>>(m));
}

} // verus!
