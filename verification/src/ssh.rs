use vstd::prelude::*;

use crate::args::{words_view, Args};
use crate::text::{chars_of, decimal, find_char, push_decimal};
use vstd::string::StringSliceAdditionalSpecFns;

verus! {

/// The program that runs on the tablet: it finds the pen input device,
/// prints the session header, keeps the tablet awake, reports the rotation
/// sensor when asked, and sends the device's records, after the session
/// token, to the host over a direct TCP connection.
pub const REMOTE_SCRIPT: &'static str = r#"
set -eu
machine=$(cat /sys/devices/soc0/machine 2>/dev/null || cat /proc/device-tree/model 2>/dev/null || printf unknown)
if [ -n "$RAT_DEVICE" ]; then
    device=$RAT_DEVICE
else
    device=
    for name_file in /sys/class/input/event*/device/name; do
        IFS= read -r name < "$name_file" || continue
        case "$name" in
            *marker*|*Marker*|*wacom*|*Wacom*|*digitizer*|*Digitizer*)
                event=${name_file#/sys/class/input/}
                event=${event%%/*}
                device=/dev/input/$event
                break
                ;;
        esac
    done
fi
[ -n "$device" ] && [ -r "$device" ] || { printf 'pen input device not found\n' >&2; exit 1; }
set -- ${SSH_CLIENT:-}
[ "$#" -ge 1 ] || { printf 'SSH client address unavailable\n' >&2; exit 1; }
client=$1
command -v nc >/dev/null || { printf 'netcat unavailable\n' >&2; exit 1; }
case "$(uname -m)" in
    aarch64|x86_64|riscv64) bits=64 ;;
    *) bits=32 ;;
esac
printf 'RAT1\t%s\t%s\t%s\n' "$bits" "$device" "$machine"
lock=ratablet-$$
locked=0
child=
orient_child=
if [ -w /sys/power/wake_lock ]; then
    printf '%s' "$lock" > /sys/power/wake_lock
    locked=1
fi
cleanup() {
    trap - EXIT HUP INT TERM
    [ -z "$child" ] || kill "$child" 2>/dev/null || :
    [ -z "$orient_child" ] || kill "$orient_child" 2>/dev/null || :
    [ "$locked" -eq 0 ] || printf '%s' "$lock" > /sys/power/wake_unlock 2>/dev/null || :
}
trap cleanup EXIT HUP INT TERM
if [ "$RAT_AUTO" = 1 ]; then
    ax=
    ay=
    for candidate in /sys/bus/iio/devices/iio:device*/in_accel_x_raw; do
        [ -r "$candidate" ] || continue
        candidate_y=${candidate%/*}/in_accel_y_raw
        [ -r "$candidate_y" ] || continue
        ax=$candidate
        ay=$candidate_y
        break
    done
    if [ -n "$ax" ]; then
        (
            while :; do
                IFS= read -r x < "$ax" || exit
                IFS= read -r y < "$ay" || exit
                printf 'RATACCEL\t%s\t%s\n' "$x" "$y" >&2
                sleep 0.1
            done
        ) &
        orient_child=$!
    else
        printf 'ratablet: rotation sensor unavailable; keeping landscape\n' >&2
    fi
fi
(
    printf '%s' "$RAT_TOKEN"
    cat "$device"
) | nc "$client" "$RAT_PORT" &
child=$!
# The host keeps SSH stdin open as a session-lifetime pipe. EOF means the
# host or connection is gone, so cleanup can stop the otherwise-blocking reader.
cat >/dev/null
"#;

// ---------------------------------------------------------------------------
// Shell quoting
// ---------------------------------------------------------------------------

/// What one character becomes inside single quotes: a quote closes the
/// quotes, is written escaped and opens them again.
pub open spec fn quote_piece(c: char) -> Seq<char> {
    if c == '\'' {
        seq!['\'', '\\', '\'', '\'']
    } else {
        seq![c]
    }
}

/// `s` with each single quote replaced by `'\''`.
pub open spec fn escape_quotes(s: Seq<char>) -> Seq<char>
    decreases s.len(),
{
    if s.len() == 0 {
        Seq::empty()
    } else {
        quote_piece(s[0]) + escape_quotes(s.drop_first())
    }
}

/// `s` in single quotes for a POSIX shell.
pub open spec fn shell_quoted(s: Seq<char>) -> Seq<char> {
    seq!['\''] + escape_quotes(s) + seq!['\'']
}

pub proof fn lemma_escape_concat(a: Seq<char>, b: Seq<char>)
    ensures
        escape_quotes(a + b) == escape_quotes(a) + escape_quotes(b),
    decreases a.len(),
{
    if a.len() == 0 {
        assert(a + b =~= b);
    } else {
        assert((a + b).drop_first() =~= a.drop_first() + b);
        lemma_escape_concat(a.drop_first(), b);
        assert(escape_quotes(a + b) =~= escape_quotes(a) + escape_quotes(b));
    }
}

pub proof fn lemma_escape_plain(s: Seq<char>)
    requires
        !s.contains('\''),
    ensures
        escape_quotes(s) == s,
    decreases s.len(),
{
    if s.len() > 0 {
        assert(s[0] != '\'');
        assert forall|c: char| s.drop_first().contains(c) implies s.contains(c) by {
            let k = choose|k: int| 0 <= k < s.drop_first().len() && s.drop_first()[k] == c;
            assert(s[k + 1] == c);
        }
        lemma_escape_plain(s.drop_first());
        assert(escape_quotes(s) =~= s);
    }
}

/// Quotes `value` for a POSIX shell: in single quotes, each single quote
/// written as `'\''`.
pub fn shell_quote(value: &str) -> (r: String)
    ensures
        r@ == shell_quoted(value@),
{
    let v = chars_of(value);
    let n = v.len();
    let mut out = String::from_str("'");
    proof {
        reveal_strlit("'");
    }
    let mut i: usize = 0;
    while i < n
        invariant
            n == v@.len(),
            v@ == value@,
            i <= n,
            out@ == seq!['\''] + escape_quotes(v@.subrange(0, i as int)),
        decreases n - i,
    {
        let j = find_char(&v, i, n, '\'');
        proof {
            let run = v@.subrange(i as int, j as int);
            crate::text::lemma_leading_bound(
                v@.subrange(i as int, n as int),
                crate::text::other_than('\''),
            );
            assert forall|k: int| 0 <= k < run.len() implies run[k] != '\'' by {
                assert(run[k] == v@.subrange(i as int, n as int)[k]);
                assert(crate::text::other_than('\'')(v@.subrange(i as int, n as int)[k]));
            }
            lemma_escape_plain(run);
            lemma_escape_concat(v@.subrange(0, i as int), run);
            assert(v@.subrange(0, i as int) + run =~= v@.subrange(0, j as int));
        }
        let part = value.substring_char(i, j);
        out.append(part);
        if j < n {
            out.append("'\\''");
            proof {
                reveal_strlit("'\\''");
                assert(v@[j as int] == '\'') by {
                    let t = v@.subrange(i as int, n as int);
                    crate::text::lemma_leading_bound(t, crate::text::other_than('\''));
                    assert(t[j - i] == v@[j as int]);
                }
                let q = v@.subrange(j as int, j + 1);
                assert(q.drop_first() =~= Seq::<char>::empty());
                assert(q[0] == v@[j as int]);
                assert(escape_quotes(q.drop_first()) =~= Seq::<char>::empty());
                assert(escape_quotes(q) =~= seq!['\'', '\\', '\'', '\'']);
                lemma_escape_concat(v@.subrange(0, j as int), q);
                assert(v@.subrange(0, j as int) + q =~= v@.subrange(0, j + 1));
            }
            i = j + 1;
        } else {
            i = j;
        }
    }
    out.append("'");
    proof {
        assert(v@.subrange(0, n as int) =~= value@);
    }
    out
}

// ---------------------------------------------------------------------------
// The ssh invocation
// ---------------------------------------------------------------------------

/// A program to run, with its arguments and the environment variables that
/// it gets besides the inherited ones.
#[derive(Debug, Clone)]
pub struct SshCommand {
    pub program: String,
    pub args: Vec<String>,
    pub envs: Vec<(String, String)>,
}

/// The options that every session passes to ssh, before the known-hosts
/// files: no forwarding, keep-alives, short timeouts, any host key
/// accepted and not stored, keys tried before the password.
pub open spec fn fixed_ssh_options() -> Seq<Seq<char>> {
    seq![
        "-T"@,
        "-o"@,
        "ClearAllForwardings=yes"@,
        "-o"@,
        "ServerAliveInterval=5"@,
        "-o"@,
        "ServerAliveCountMax=2"@,
        "-o"@,
        "ConnectTimeout=5"@,
        "-o"@,
        "StrictHostKeyChecking=no"@,
        "-o"@,
        "UpdateHostKeys=no"@,
        "-o"@,
        "CheckHostIP=no"@,
        "-o"@,
        "LogLevel=ERROR"@,
        "-o"@,
        "PreferredAuthentications=publickey,keyboard-interactive,password"@,
        "-o"@,
        "NumberOfPasswordPrompts=1"@,
    ]
}

/// The command that ssh runs on the tablet: the session's settings in
/// environment variables, then the tablet-side program for `/bin/sh`.
pub open spec fn remote_command(device: Seq<char>, auto: bool, port: u16, token: Seq<char>) -> Seq<char> {
    "RAT_DEVICE='"@ + device + "' RAT_AUTO='"@ + (if auto {
        "1"@
    } else {
        "0"@
    }) + "' RAT_PORT='"@ + decimal(port as nat) + "' RAT_TOKEN='"@ + token + "' /bin/sh -c "@
        + shell_quoted(REMOTE_SCRIPT@)
}

/// The arguments of ssh for a session.
pub open spec fn ssh_arguments(
    host: Seq<char>,
    key: Option<Seq<char>>,
    device: Seq<char>,
    auto: bool,
    port: u16,
    token: Seq<char>,
    sink: Seq<char>,
) -> Seq<Seq<char>> {
    fixed_ssh_options() + seq![
        "-o"@,
        "UserKnownHostsFile="@ + sink,
        "-o"@,
        "GlobalKnownHostsFile="@ + sink,
    ] + (match key {
        Some(k) => seq!["-i"@, k],
        None => Seq::empty(),
    }) + seq!["--"@, host, remote_command(device, auto, port, token)]
}

/// The environment of ssh for a session: `SSH_ASKPASS` names `askpass`,
/// the path of this program, so that the password prompt goes to it, and it
/// answers with the password when there is one.
pub open spec fn ssh_environment(askpass: Seq<char>, password: Option<Seq<char>>) -> Seq<
    (Seq<char>, Seq<char>),
> {
    seq![
        ("SSH_ASKPASS"@, askpass),
        ("SSH_ASKPASS_REQUIRE"@, "force"@),
        ("RATABLET_ASKPASS"@, "1"@),
    ] + match password {
        Some(p) => seq![("RATABLET_PASSWORD"@, p)],
        None => Seq::empty(),
    }
}

pub open spec fn env_view(e: Seq<(String, String)>) -> Seq<(Seq<char>, Seq<char>)> {
    e.map_values(|p: (String, String)| (p.0@, p.1@))
}

fn push_word(v: &mut Vec<String>, w: &str)
    ensures
        words_view(final(v)@) == words_view(old(v)@).push(w@),
{
    let ghost before = v@;
    v.push(String::from_str(w));
    proof {
        assert(words_view(final(v)@) =~= words_view(before).push(w@));
    }
}

fn push_string(v: &mut Vec<String>, w: String)
    ensures
        words_view(final(v)@) == words_view(old(v)@).push(w@),
{
    let ghost before = v@;
    v.push(w);
    proof {
        assert(words_view(final(v)@) =~= words_view(before).push(w@));
    }
}

fn joined(a: &str, b: &str) -> (r: String)
    ensures
        r@ == a@ + b@,
{
    let mut s = String::from_str(a);
    s.append(b);
    s
}

/// The command that ssh runs on the tablet.
pub fn remote_command_text(device: &str, auto: bool, port: u16, token: &str) -> (r: String)
    ensures
        r@ == remote_command(device@, auto, port, token@),
{
    let mut s = String::from_str("RAT_DEVICE='");
    s.append(device);
    s.append("' RAT_AUTO='");
    s.append(if auto { "1" } else { "0" });
    s.append("' RAT_PORT='");
    push_decimal(&mut s, port as u64);
    s.append("' RAT_TOKEN='");
    s.append(token);
    s.append("' /bin/sh -c ");
    let q = shell_quote(REMOTE_SCRIPT);
    s.append(q.as_str());
    s
}

/// The ssh invocation for a session: `auto_rotate` asks the tablet side for
/// rotation sensor readings, `password` is handed to the password prompt,
/// `data_port` and `data_token` are where and how the tablet sends the pen
/// records, `known_hosts_sink` is the platform's null device and `askpass`
/// the path of the running program.
pub fn ssh_command(
    args: &Args,
    auto_rotate: bool,
    password: Option<&str>,
    data_port: u16,
    data_token: &str,
    known_hosts_sink: &str,
    askpass: &str,
) -> (r: SshCommand)
    ensures
        r.program@ == "ssh"@,
        words_view(r.args@) == ssh_arguments(
            args.host@,
            crate::args::opt_view(args.key),
            match args.device {
                Some(d) => d@,
                None => Seq::empty(),
            },
            auto_rotate,
            data_port,
            data_token@,
            known_hosts_sink@,
        ),
        env_view(r.envs@) == ssh_environment(
            askpass@,
            match password {
                Some(p) => Some(p@),
                None => None,
            },
        ),
{
    let mut a: Vec<String> = Vec::new();
    push_word(&mut a, "-T");
    push_word(&mut a, "-o");
    push_word(&mut a, "ClearAllForwardings=yes");
    push_word(&mut a, "-o");
    push_word(&mut a, "ServerAliveInterval=5");
    push_word(&mut a, "-o");
    push_word(&mut a, "ServerAliveCountMax=2");
    push_word(&mut a, "-o");
    push_word(&mut a, "ConnectTimeout=5");
    push_word(&mut a, "-o");
    push_word(&mut a, "StrictHostKeyChecking=no");
    push_word(&mut a, "-o");
    push_word(&mut a, "UpdateHostKeys=no");
    push_word(&mut a, "-o");
    push_word(&mut a, "CheckHostIP=no");
    push_word(&mut a, "-o");
    push_word(&mut a, "LogLevel=ERROR");
    push_word(&mut a, "-o");
    push_word(&mut a, "PreferredAuthentications=publickey,keyboard-interactive,password");
    push_word(&mut a, "-o");
    push_word(&mut a, "NumberOfPasswordPrompts=1");
    proof {
        assert(words_view(a@) =~= fixed_ssh_options());
    }
    let ghost base = words_view(a@);
    push_word(&mut a, "-o");
    push_string(&mut a, joined("UserKnownHostsFile=", known_hosts_sink));
    push_word(&mut a, "-o");
    push_string(&mut a, joined("GlobalKnownHostsFile=", known_hosts_sink));
    let ghost with_sinks = words_view(a@);
    match &args.key {
        Some(key) => {
            push_word(&mut a, "-i");
            push_word(&mut a, key.as_str());
        },
        None => {},
    }
    let ghost with_key = words_view(a@);
    push_word(&mut a, "--");
    push_word(&mut a, args.host.as_str());
    let device = match &args.device {
        Some(d) => d.as_str(),
        None => "",
    };
    proof {
        reveal_strlit("");
    }
    let remote = remote_command_text(device, auto_rotate, data_port, data_token);
    push_string(&mut a, remote);
    proof {
        let sinks = seq![
            "-o"@,
            "UserKnownHostsFile="@ + known_hosts_sink@,
            "-o"@,
            "GlobalKnownHostsFile="@ + known_hosts_sink@,
        ];
        assert(with_sinks =~= base + sinks);
        let keys: Seq<Seq<char>> = match crate::args::opt_view(args.key) {
            Some(k) => seq!["-i"@, k],
            None => Seq::empty(),
        };
        assert(with_key =~= base + sinks + keys);
        assert(words_view(a@) =~= base + sinks + keys + seq!["--"@, args.host@, remote@]);
    }
    let mut envs: Vec<(String, String)> = Vec::new();
    envs.push((String::from_str("SSH_ASKPASS"), String::from_str(askpass)));
    envs.push((String::from_str("SSH_ASKPASS_REQUIRE"), String::from_str("force")));
    envs.push((String::from_str("RATABLET_ASKPASS"), String::from_str("1")));
    match password {
        Some(p) => {
            envs.push((String::from_str("RATABLET_PASSWORD"), String::from_str(p)));
        },
        None => {},
    }
    proof {
        assert(env_view(envs@) =~= ssh_environment(
            askpass@,
            match password {
                Some(p) => Some(p@),
                None => None,
            },
        ));
    }
    SshCommand { program: String::from_str("ssh"), args: a, envs }
}

// ---------------------------------------------------------------------------
// The session token
// ---------------------------------------------------------------------------

/// The error type of the `getrandom` crate.
#[verifier::external_type_specification]
#[verifier::external_body]
pub struct ExRandomError(getrandom::Error);

/// `getrandom::fill`: fills `dest` with random bytes from the operating
/// system, or fails. Nothing is stated of the bytes: they are random.
#[verifier::external_body]
fn fill_random(dest: &mut [u8; 16]) -> Result<(), getrandom::Error> {
    getrandom::fill(dest)
}

/// The text of a `getrandom::Error`, through its `Display` impl; nothing is
/// stated of it.
#[verifier::external_body]
fn random_error_text(error: &getrandom::Error) -> String {
    error.to_string()
}

/// `u128::from_ne_bytes`: the bytes as a number in the machine's byte
/// order; nothing is stated, since the order depends on the machine.
#[verifier::external_body]
fn u128_from_ne_bytes(bytes: [u8; 16]) -> u128 {
    u128::from_ne_bytes(bytes)
}

pub open spec fn hex_char(d: int) -> char {
    if d < 10 {
        ((d + 48) as u32) as char
    } else {
        ((d + 87) as u32) as char
    }
}

/// The lowest `n` hexadecimal digits of `v`, lower case, most significant
/// first (`format!("{:0n$x}")` for a value below `16^n`).
pub open spec fn hex_digits(v: nat, n: nat) -> Seq<char>
    decreases n,
{
    if n == 0 {
        Seq::empty()
    } else {
        hex_digits(v / 16, (n - 1) as nat).push(hex_char((v % 16) as int))
    }
}

pub open spec fn is_lower_hex(c: char) -> bool {
    ('0' <= c && c <= '9') || ('a' <= c && c <= 'f')
}

fn hex_str(d: u128) -> (r: &'static str)
    requires
        d < 16,
    ensures
        r@ == seq![hex_char(d as int)],
{
    let s = if d == 0 { "0" } else if d == 1 { "1" } else if d == 2 { "2" } else if d == 3 { "3" }
    else if d == 4 { "4" } else if d == 5 { "5" } else if d == 6 { "6" } else if d == 7 { "7" }
    else if d == 8 { "8" } else if d == 9 { "9" } else if d == 10 { "a" } else if d == 11 { "b" }
    else if d == 12 { "c" } else if d == 13 { "d" } else if d == 14 { "e" } else { "f" };
    proof {
        reveal_strlit("0"); reveal_strlit("1"); reveal_strlit("2"); reveal_strlit("3");
        reveal_strlit("4"); reveal_strlit("5"); reveal_strlit("6"); reveal_strlit("7");
        reveal_strlit("8"); reveal_strlit("9"); reveal_strlit("a"); reveal_strlit("b");
        reveal_strlit("c"); reveal_strlit("d"); reveal_strlit("e"); reveal_strlit("f");
    }
    s
}

/// Appends the lowest `n` hexadecimal digits of `v`.
pub fn push_hex(out: &mut String, v: u128, n: u32)
    ensures
        final(out)@ == old(out)@ + hex_digits(v as nat, n as nat),
    decreases n,
{
    if n > 0 {
        push_hex(out, v / 16, n - 1);
        let d = hex_str(v % 16);
        out.append(d);
        proof {
            assert(final(out)@ =~= old(out)@ + hex_digits(v as nat, n as nat));
        }
    } else {
        proof {
            assert(final(out)@ =~= old(out)@ + hex_digits(v as nat, n as nat));
        }
    }
}

pub proof fn lemma_hex_digits(v: nat, n: nat)
    ensures
        hex_digits(v, n).len() == n,
        forall|i: int| 0 <= i < n ==> is_lower_hex(#[trigger] hex_digits(v, n)[i]),
    decreases n,
{
    if n > 0 {
        lemma_hex_digits(v / 16, (n - 1) as nat);
        let d = (v % 16) as int;
        assert(is_lower_hex(hex_char(d)));
    }
}

/// A fresh session token: 32 lowercase hexadecimal digits of 16 random
/// bytes, or the error of the random source.
pub fn data_token() -> (r: Result<String, String>)
    ensures
        r matches Ok(t) ==> t@.len() == 32 && forall|i: int| 0 <= i < 32 ==> is_lower_hex(
            #[trigger] t@[i],
        ),
        r matches Ok(t) ==> exists|v: u128| t@ == hex_digits(v as nat, 32),
{
    let mut bytes: [u8; 16] = [0; 16];
    match fill_random(&mut bytes) {
        Ok(()) => {},
        Err(e) => {
            return Err(random_error_text(&e));
        },
    }
    let v = u128_from_ne_bytes(bytes);
    let mut t = String::new();
    push_hex(&mut t, v, 32);
    proof {
        lemma_hex_digits(v as nat, 32);
        assert(t@ =~= hex_digits(v as nat, 32));
    }
    Ok(t)
}

/// Whether the first bytes that a data connection sent are the session
/// token; only such a connection carries the pen records.
pub fn token_accepted(received: &[u8], token: &str) -> (r: bool)
    ensures
        r == (received@ == token.spec_bytes()),
{
    let expected = token.as_bytes();
    if received.len() != expected.len() {
        return false;
    }
    let mut i: usize = 0;
    while i < received.len()
        invariant
            received@.len() == expected@.len(),
            expected@ == token.spec_bytes(),
            i <= received@.len(),
            forall|k: int| 0 <= k < i ==> received@[k] == expected@[k],
        decreases received@.len() - i,
    {
        if received[i] != expected[i] {
            proof {
                assert(received@[i as int] != expected@[i as int]);
            }
            return false;
        }
        i = i + 1;
    }
    proof {
        assert(received@ =~= expected@);
    }
    true
}

} // verus!
