use vstd::prelude::*;

use crate::args::{normalized_host, Args};
use crate::device::{has_rotation_sensor, DeviceInfo};
use crate::retry::{is_auth_error, kind_of, RetryErrorKind};
use crate::rotation::{effective_rotation, mode_named, mode_of_args, parse_rotation, RotationMode};
use crate::state::ConnectionStatus;
use crate::text::{decimal, has_prefix, lower, lower_chars_of, push_decimal, starts_with_str, chars_of, eq_str};

verus! {

// ---------------------------------------------------------------------------
// Language
// ---------------------------------------------------------------------------

/// The language of the panel.
#[derive(Debug, Clone, Copy, PartialEq, Eq, Structural)]
pub enum Language {
    English,
    Chinese,
}

/// The language for a system locale: Chinese for a locale whose tag begins
/// with `zh` (without regard to ASCII case), else English.
pub open spec fn language_of_locale(locale: Option<Seq<char>>) -> Language {
    match locale {
        Some(l) => if has_prefix(lower(l), "zh"@) {
            Language::Chinese
        } else {
            Language::English
        },
        None => Language::English,
    }
}

/// The name under which the panel stores a language.
pub open spec fn language_code(l: Language) -> Seq<char> {
    match l {
        Language::English => "en"@,
        Language::Chinese => "zh-CN"@,
    }
}

/// The language stored under a name.
pub open spec fn language_named(v: Seq<char>) -> Option<Language> {
    if v == "en"@ {
        Some(Language::English)
    } else if v == "zh-CN"@ {
        Some(Language::Chinese)
    } else {
        None
    }
}

/// `sys_locale::get_locale`: the system's preferred locale, if it has one.
/// It depends on the system, so nothing is stated of it.
#[verifier::external_body]
fn system_locale() -> Option<String> {
    sys_locale::get_locale()
}

impl Language {
    /// The language for a system locale.
    pub fn from_locale(locale: Option<&str>) -> (r: Self)
        ensures
            r == language_of_locale(
                match locale {
                    Some(l) => Some(l@),
                    None => None,
                },
            ),
    {
        match locale {
            Some(l) => {
                let v = lower_chars_of(l);
                if starts_with_str(&v, "zh") {
                    Language::Chinese
                } else {
                    Language::English
                }
            },
            None => Language::English,
        }
    }

    /// The language of the system locale.
    pub fn detect() -> (r: Self) {
        let locale = system_locale();
        match &locale {
            Some(l) => Language::from_locale(Some(l.as_str())),
            None => Language::from_locale(None),
        }
    }

    /// The language stored under `value`.
    pub fn parse(value: &str) -> (r: Option<Self>)
        ensures
            r == language_named(value@),
    {
        let v = chars_of(value);
        if eq_str(&v, "en") {
            Some(Language::English)
        } else if eq_str(&v, "zh-CN") {
            Some(Language::Chinese)
        } else {
            None
        }
    }

    /// The name under which the language is stored.
    pub fn code(self) -> (r: &'static str)
        ensures
            r@ == language_code(self),
    {
        match self {
            Language::English => "en",
            Language::Chinese => "zh-CN",
        }
    }
}

// ---------------------------------------------------------------------------
// The panel's texts
// ---------------------------------------------------------------------------

/// The texts of the panel in one language.
#[derive(Debug, Clone, Copy)]
pub struct Text {
    pub device_tab: &'static str,
    pub settings_tab: &'static str,
    pub connected: &'static str,
    pub connecting: &'static str,
    pub waiting: &'static str,
    pub device: &'static str,
    pub rotation_status: &'static str,
    pub rotation_setting: &'static str,
    pub landscape: &'static str,
    pub automatic: &'static str,
    pub input_mapping: &'static str,
    pub pen_tip: &'static str,
    pub primary_click: &'static str,
    pub barrel_button: &'static str,
    pub barrel_action: &'static str,
    pub second_button: &'static str,
    pub second_action: &'static str,
    pub eraser: &'static str,
    pub eraser_action: &'static str,
    pub language: &'static str,
    pub english: &'static str,
    pub chinese: &'static str,
    pub ssh_target: &'static str,
    pub apply_target: &'static str,
    pub target_applied: &'static str,
    pub invalid_target: &'static str,
    pub password: &'static str,
    pub password_hint: &'static str,
    pub save_password: &'static str,
    pub forget_password: &'static str,
    pub password_saved: &'static str,
    pub password_forgotten: &'static str,
    pub credential_error: &'static str,
    pub authentication_required: &'static str,
    pub authentication_message: &'static str,
    pub save_and_retry: &'static str,
    pub accessibility_required: &'static str,
    pub accessibility_message: &'static str,
    pub open_accessibility: &'static str,
    pub later: &'static str,
    pub popup_behavior: &'static str,
    pub quit: &'static str,
}

/// The texts of the panel in a language.
pub open spec fn texts(language: Language) -> Text {
    match language {
        Language::English => Text {
            device_tab: "Device",
            settings_tab: "Settings",
            connected: "Connected",
            connecting: "Connecting…",
            waiting: "Waiting to reconnect…",
            device: "Device",
            rotation_status: "Rotation",
            rotation_setting: "Rotation setting",
            landscape: "Landscape (default)",
            automatic: "Automatic",
            input_mapping: "Input mapping",
            pen_tip: "Pen tip",
            primary_click: "Primary click",
            barrel_button: "Barrel button",
            barrel_action: "Stylus button 1",
            second_button: "Second button",
            second_action: "Stylus button 2",
            eraser: "Eraser",
            eraser_action: "Tablet eraser",
            language: "Language",
            english: "English",
            chinese: "简体中文",
            ssh_target: "SSH target",
            apply_target: "Apply and reconnect",
            target_applied: "SSH target applied.",
            invalid_target: "Enter an IP address, hostname, or user@host without spaces.",
            password: "SSH password",
            password_hint: "Keys are always tried first.",
            save_password: "Save password",
            forget_password: "Forget",
            password_saved: "Password saved in the system credential store.",
            password_forgotten: "Saved password removed.",
            credential_error: "Credential store error",
            authentication_required: "Authentication required",
            authentication_message: "Key authentication failed. Enter the device password, save it, and retry.",
            save_and_retry: "Save and retry",
            accessibility_required: "Accessibility permission required",
            accessibility_message: "Open System Settings → Privacy & Security → Accessibility, then turn on the switch next to ratablet.",
            open_accessibility: "Open Accessibility Settings",
            later: "Later",
            popup_behavior: "The window hides when it loses focus.",
            quit: "Quit ratablet",
        },
        Language::Chinese => Text {
            device_tab: "设备",
            settings_tab: "设置",
            connected: "已连接",
            connecting: "正在连接…",
            waiting: "等待重新连接…",
            device: "设备",
            rotation_status: "当前方向",
            rotation_setting: "旋转设置",
            landscape: "横屏（默认）",
            automatic: "自动旋转",
            input_mapping: "按键映射",
            pen_tip: "笔尖",
            primary_click: "主点击",
            barrel_button: "笔身键",
            barrel_action: "数位笔按键 1",
            second_button: "第二按键",
            second_action: "数位笔按键 2",
            eraser: "橡皮擦",
            eraser_action: "数位板橡皮擦",
            language: "语言",
            english: "English",
            chinese: "简体中文",
            ssh_target: "SSH 目标",
            apply_target: "应用并重连",
            target_applied: "SSH 目标已应用。",
            invalid_target: "请输入不含空格的 IP、主机名或 user@host。",
            password: "SSH 密码",
            password_hint: "程序始终优先尝试密钥认证。",
            save_password: "保存密码",
            forget_password: "忘记密码",
            password_saved: "密码已保存到系统凭据库。",
            password_forgotten: "已删除保存的密码。",
            credential_error: "凭据库错误",
            authentication_required: "需要认证",
            authentication_message: "密钥认证失败。请输入设备密码，保存后再重新连接。",
            save_and_retry: "保存并重试",
            accessibility_required: "需要辅助功能权限",
            accessibility_message: "请打开“系统设置 → 隐私与安全性 → 辅助功能”，开启 ratablet 旁边的开关。",
            open_accessibility: "打开辅助功能设置",
            later: "稍后",
            popup_behavior: "窗口失去焦点后会自动隐藏。",
            quit: "退出 ratablet",
        },
    }
}

impl Text {
    /// The texts of the panel in a language.
    pub fn for_language(language: Language) -> (r: Self)
        ensures
            r == texts(language),
    {
        match language {
            Language::English => Text {
                device_tab: "Device",
                settings_tab: "Settings",
                connected: "Connected",
                connecting: "Connecting…",
                waiting: "Waiting to reconnect…",
                device: "Device",
                rotation_status: "Rotation",
                rotation_setting: "Rotation setting",
                landscape: "Landscape (default)",
                automatic: "Automatic",
                input_mapping: "Input mapping",
                pen_tip: "Pen tip",
                primary_click: "Primary click",
                barrel_button: "Barrel button",
                barrel_action: "Stylus button 1",
                second_button: "Second button",
                second_action: "Stylus button 2",
                eraser: "Eraser",
                eraser_action: "Tablet eraser",
                language: "Language",
                english: "English",
                chinese: "简体中文",
                ssh_target: "SSH target",
                apply_target: "Apply and reconnect",
                target_applied: "SSH target applied.",
                invalid_target: "Enter an IP address, hostname, or user@host without spaces.",
                password: "SSH password",
                password_hint: "Keys are always tried first.",
                save_password: "Save password",
                forget_password: "Forget",
                password_saved: "Password saved in the system credential store.",
                password_forgotten: "Saved password removed.",
                credential_error: "Credential store error",
                authentication_required: "Authentication required",
                authentication_message: "Key authentication failed. Enter the device password, save it, and retry.",
                save_and_retry: "Save and retry",
                accessibility_required: "Accessibility permission required",
                accessibility_message: "Open System Settings → Privacy & Security → Accessibility, then turn on the switch next to ratablet.",
                open_accessibility: "Open Accessibility Settings",
                later: "Later",
                popup_behavior: "The window hides when it loses focus.",
                quit: "Quit ratablet",
            },
            Language::Chinese => Text {
                device_tab: "设备",
                settings_tab: "设置",
                connected: "已连接",
                connecting: "正在连接…",
                waiting: "等待重新连接…",
                device: "设备",
                rotation_status: "当前方向",
                rotation_setting: "旋转设置",
                landscape: "横屏（默认）",
                automatic: "自动旋转",
                input_mapping: "按键映射",
                pen_tip: "笔尖",
                primary_click: "主点击",
                barrel_button: "笔身键",
                barrel_action: "数位笔按键 1",
                second_button: "第二按键",
                second_action: "数位笔按键 2",
                eraser: "橡皮擦",
                eraser_action: "数位板橡皮擦",
                language: "语言",
                english: "English",
                chinese: "简体中文",
                ssh_target: "SSH 目标",
                apply_target: "应用并重连",
                target_applied: "SSH 目标已应用。",
                invalid_target: "请输入不含空格的 IP、主机名或 user@host。",
                password: "SSH 密码",
                password_hint: "程序始终优先尝试密钥认证。",
                save_password: "保存密码",
                forget_password: "忘记密码",
                password_saved: "密码已保存到系统凭据库。",
                password_forgotten: "已删除保存的密码。",
                credential_error: "凭据库错误",
                authentication_required: "需要认证",
                authentication_message: "密钥认证失败。请输入设备密码，保存后再重新连接。",
                save_and_retry: "保存并重试",
                accessibility_required: "需要辅助功能权限",
                accessibility_message: "请打开“系统设置 → 隐私与安全性 → 辅助功能”，开启 ratablet 旁边的开关。",
                open_accessibility: "打开辅助功能设置",
                later: "稍后",
                popup_behavior: "窗口失去焦点后会自动隐藏。",
                quit: "退出 ratablet",
            },
        }
    }
}

/// The label of a rotation mode in the panel's list.
pub open spec fn mode_label(mode: RotationMode, text: Text) -> Seq<char> {
    match mode {
        RotationMode::Landscape => text.landscape@,
        RotationMode::Auto => text.automatic@,
        RotationMode::Fixed(d) => decimal(d as nat) + "°"@,
    }
}

/// The label of a rotation mode in the panel's list.
pub fn rotation_label(mode: RotationMode, text: &Text) -> (r: String)
    ensures
        r@ == mode_label(mode, *text),
{
    match mode {
        RotationMode::Landscape => String::from_str(text.landscape),
        RotationMode::Auto => String::from_str(text.automatic),
        RotationMode::Fixed(degrees) => {
            let mut s = String::new();
            push_decimal(&mut s, degrees as u64);
            s.append("°");
            s
        },
    }
}

/// What removing the stored password from the credential store came to.
#[derive(Debug, Clone)]
pub enum Removal {
    /// The password was removed.
    Removed,
    /// No password was stored.
    NoEntry,
    /// The store failed, with its error's text.
    Failed(String),
}

/// The message after forgetting the password, and whether it reports
/// success: a removed password and one that was never stored both count as
/// forgotten; a failure shows the store's error after the credential-error
/// text.
pub fn forget_message(outcome: &Removal, text: &Text) -> (r: (bool, String))
    ensures
        match *outcome {
            Removal::Failed(e) => !r.0 && r.1@ == text.credential_error@ + ": "@ + e@,
            _ => r.0 && r.1@ == text.password_forgotten@,
        },
{
    match outcome {
        Removal::Failed(e) => {
            let mut m = String::from_str(text.credential_error);
            m.append(": ");
            m.append(e.as_str());
            (false, m)
        },
        _ => (true, String::from_str(text.password_forgotten)),
    }
}

/// The labels of the tray menu: open the panel, quit.
pub open spec fn tray_labels(language: Language) -> (Seq<char>, Seq<char>) {
    match language {
        Language::English => ("Open"@, "Quit"@),
        Language::Chinese => ("打开"@, "退出"@),
    }
}

/// The labels of the tray menu.
pub fn tray_text(language: Language) -> (r: (&'static str, &'static str))
    ensures
        (r.0@, r.1@) == tray_labels(language),
{
    match language {
        Language::English => ("Open", "Quit"),
        Language::Chinese => ("打开", "退出"),
    }
}

// ---------------------------------------------------------------------------
// The icon
// ---------------------------------------------------------------------------

/// The colors of the icon, RGBA.
pub open spec fn ink() -> Seq<u8> {
    seq![28u8, 155u8, 150u8, 255u8]
}

pub open spec fn paper() -> Seq<u8> {
    seq![245u8, 245u8, 245u8, 255u8]
}

pub open spec fn clear() -> Seq<u8> {
    seq![0u8, 0u8, 0u8, 0u8]
}

/// The pixel at column `x`, row `y` of the icon of side `size`: a tablet
/// outline (rows 5 to 26, columns 4 to 21, open inside rows 7 to 23 and
/// columns 7 to 18) crossed by a pen stroke that rises from column 12,
/// row 25 to the right, one row per column, light with a dark edge below.
pub open spec fn icon_pixel(size: int, x: int, y: int) -> Seq<u8> {
    if 12 <= x <= 30 && x < size && y == 37 - x {
        paper()
    } else if 12 <= x <= 30 && x < size && y == 38 - x && y < size {
        ink()
    } else if 5 <= y < 27 && 4 <= x < 22 && !(7 <= y < 24 && 7 <= x < 19) {
        ink()
    } else {
        clear()
    }
}

/// Byte `k` of the icon's RGBA pixels, row by row.
pub open spec fn icon_byte(size: int, k: int) -> u8 {
    icon_pixel(size, (k / 4) % size, (k / 4) / size)[k % 4]
}

fn pixel(size: u32, x: u32, y: u32) -> (r: [u8; 4])
    ensures
        r@ == icon_pixel(size as int, x as int, y as int),
{
    let c: [u8; 4] = if 12 <= x && x <= 30 && x < size && y as u64 + x as u64 == 37 {
        [245, 245, 245, 255]
    } else if 12 <= x && x <= 30 && x < size && y as u64 + x as u64 == 38 && y < size {
        [28, 155, 150, 255]
    } else if 5 <= y && y < 27 && 4 <= x && x < 22 && !(7 <= y && y < 24 && 7 <= x && x < 19) {
        [28, 155, 150, 255]
    } else {
        [0, 0, 0, 0]
    };
    proof {
        assert(c@ =~= icon_pixel(size as int, x as int, y as int));
    }
    c
}

/// The icon, RGBA, `size` pixels square.
pub fn icon_rgba(size: u32) -> (r: Vec<u8>)
    requires
        27 <= size,
        size * size * 4 <= u32::MAX,
    ensures
        r@.len() == size * size * 4,
        forall|k: int| 0 <= k < r@.len() ==> #[trigger] r@[k] == icon_byte(size as int, k),
{
    let mut rgba: Vec<u8> = Vec::new();
    let mut y: u32 = 0;
    while y < size
        invariant
            27 <= size,
            size * size * 4 <= u32::MAX,
            y <= size,
            rgba@.len() == y * size * 4,
            forall|k: int| 0 <= k < rgba@.len() ==> #[trigger] rgba@[k] == icon_byte(size as int, k),
        decreases size - y,
    {
        let mut x: u32 = 0;
        while x < size
            invariant
                27 <= size,
                size * size * 4 <= u32::MAX,
                y < size,
                x <= size,
                rgba@.len() == (y * size + x) * 4,
                forall|k: int| 0 <= k < rgba@.len() ==> #[trigger] rgba@[k] == icon_byte(size as int, k),
            decreases size - x,
        {
            let c = pixel(size, x, y);
            let ghost base = rgba@.len() as int;
            proof {
                let sz = size as int;
                let xi = x as int;
                let yi = y as int;
                assert(base == (yi * sz + xi) * 4);
                assert((yi * sz + xi) % sz == xi && (yi * sz + xi) / sz == yi) by (nonlinear_arith)
                    requires 0 <= xi < sz, 0 <= yi, sz > 0;
            }
            rgba.push(c[0]);
            rgba.push(c[1]);
            rgba.push(c[2]);
            rgba.push(c[3]);
            proof {
                assert forall|k: int| 0 <= k < rgba@.len() implies #[trigger] rgba@[k] == icon_byte(
                    size as int,
                    k,
                ) by {
                    if k >= base {
                        let sz = size as int;
                        let p = y as int * sz + x as int;
                        assert(base == p * 4);
                        assert(k / 4 == p);
                        assert(k % 4 == k - base);
                        assert(p % sz == x as int && p / sz == y as int);
                        assert(rgba@[k] == c@[k - base]);
                    }
                }
                assert((y * size + x + 1) * 4 == (y * size + x) * 4 + 4) by (nonlinear_arith);
            }
            x = x + 1;
        }
        proof {
            assert((y * size + size) * 4 == (y + 1) * size * 4) by (nonlinear_arith);
        }
        y = y + 1;
    }
    rgba
}

/// The pixels with each 4-byte RGBA pixel turned to ARGB (the alpha byte
/// moved to the front); bytes after the last whole pixel stay as they are.
pub open spec fn argb_byte(rgba: Seq<u8>, k: int) -> u8 {
    if k < rgba.len() - rgba.len() % 4 {
        if k % 4 == 0 {
            rgba[k + 3]
        } else {
            rgba[k - 1]
        }
    } else {
        rgba[k]
    }
}

/// The pixels in ARGB order, as the tray expects them.
pub fn rgba_to_argb(rgba: &Vec<u8>) -> (r: Vec<u8>)
    ensures
        r@.len() == rgba@.len(),
        forall|k: int| 0 <= k < r@.len() ==> #[trigger] r@[k] == argb_byte(rgba@, k),
{
    let n = rgba.len();
    let whole = n - n % 4;
    let mut out: Vec<u8> = Vec::new();
    let mut i: usize = 0;
    while i < whole
        invariant
            n == rgba@.len(),
            whole == n - n % 4,
            i <= whole,
            i % 4 == 0,
            out@.len() == i,
            forall|k: int| 0 <= k < i ==> #[trigger] out@[k] == argb_byte(rgba@, k),
        decreases whole - i,
    {
        let ghost base = i as int;
        out.push(rgba[i + 3]);
        out.push(rgba[i]);
        out.push(rgba[i + 1]);
        out.push(rgba[i + 2]);
        proof {
            assert forall|k: int| 0 <= k < out@.len() implies #[trigger] out@[k] == argb_byte(
                rgba@,
                k,
            ) by {
                if k >= base {
                    assert(k % 4 == k - base);
                }
            }
        }
        i = i + 4;
    }
    while i < n
        invariant
            n == rgba@.len(),
            whole == n - n % 4,
            whole <= i <= n,
            out@.len() == i,
            forall|k: int| 0 <= k < i ==> #[trigger] out@[k] == argb_byte(rgba@, k),
        decreases n - i,
    {
        out.push(rgba[i]);
        i = i + 1;
    }
    out
}

// ---------------------------------------------------------------------------
// The panel's settings when it opens
// ---------------------------------------------------------------------------

pub open spec fn opt_str_view(o: Option<&str>) -> Option<Seq<char>> {
    match o {
        Some(s) => Some(s@),
        None => None,
    }
}

/// The stored language, when one is stored under a known name; else the
/// system's.
pub fn initial_language(stored: Option<&str>) -> (r: Language)
    ensures
        (stored matches Some(v) && language_named(v@) is Some) ==> r == language_named(
            stored->0@,
        )->0,
{
    match stored {
        Some(v) => match Language::parse(v) {
            Some(l) => l,
            None => Language::detect(),
        },
        None => Language::detect(),
    }
}

/// The rotation mode when the panel opens: the command line's when it sets
/// one, else the stored one, else landscape.
pub open spec fn opening_rotation(
    auto_rotate: bool,
    rotate: Option<u16>,
    stored: Option<Seq<char>>,
) -> RotationMode {
    if rotate is Some || auto_rotate {
        mode_of_args(auto_rotate, rotate)
    } else {
        match stored {
            Some(v) => match mode_named(v) {
                Some(m) => m,
                None => mode_of_args(auto_rotate, rotate),
            },
            None => mode_of_args(auto_rotate, rotate),
        }
    }
}

/// The rotation mode when the panel opens.
pub fn initial_rotation(args: &Args, stored: Option<&str>) -> (r: RotationMode)
    ensures
        r == opening_rotation(args.auto_rotate, args.rotate, opt_str_view(stored)),
{
    let cli = RotationMode::from_args(args);
    if args.rotate.is_some() || args.auto_rotate {
        return cli;
    }
    match stored {
        Some(v) => match parse_rotation(v) {
            Some(m) => m,
            None => cli,
        },
        None => cli,
    }
}

/// The SSH target when the panel opens: the command line's when `--host`
/// was given, else the stored one when it is a valid target, else the
/// command line's.
pub open spec fn opening_host(
    host: Seq<char>,
    host_explicit: bool,
    stored: Option<Seq<char>>,
) -> Seq<char> {
    if host_explicit {
        host
    } else {
        match stored {
            Some(v) => match normalized_host(v) {
                Ok(t) => t,
                Err(_) => host,
            },
            None => host,
        }
    }
}

/// The SSH target when the panel opens.
pub fn initial_host(args: &Args, stored: Option<&str>) -> (r: String)
    ensures
        r@ == opening_host(args.host@, args.host_explicit, opt_str_view(stored)),
{
    if args.host_explicit {
        return args.host.clone();
    }
    match stored {
        Some(v) => match crate::args::normalize_host(v) {
            Ok(t) => t,
            Err(_) => args.host.clone(),
        },
        None => args.host.clone(),
    }
}

// ---------------------------------------------------------------------------
// What the device page shows
// ---------------------------------------------------------------------------

/// The heading of the device page.
#[derive(Debug, Clone, Copy, PartialEq, Eq, Structural)]
pub enum StatusKind {
    Connected,
    Connecting,
    AuthenticationRequired,
    Waiting,
}

pub open spec fn status_kind_of(status: ConnectionStatus) -> StatusKind {
    match status {
        ConnectionStatus::Connected(_) => StatusKind::Connected,
        ConnectionStatus::Connecting => StatusKind::Connecting,
        ConnectionStatus::Waiting(e) => if kind_of(e@) == RetryErrorKind::Authentication {
            StatusKind::AuthenticationRequired
        } else {
            StatusKind::Waiting
        },
    }
}

/// The heading for a connection status.
pub fn status_kind(status: &ConnectionStatus) -> (r: StatusKind)
    ensures
        r == status_kind_of(*status),
{
    match status {
        ConnectionStatus::Connected(_) => StatusKind::Connected,
        ConnectionStatus::Connecting => StatusKind::Connecting,
        ConnectionStatus::Waiting(error) => if is_auth_error(error.as_str()) {
            StatusKind::AuthenticationRequired
        } else {
            StatusKind::Waiting
        },
    }
}

/// The error that asks for a password: an authentication failure that the
/// connection waits on.
pub fn auth_error(status: &ConnectionStatus) -> (r: Option<String>)
    ensures
        match *status {
            ConnectionStatus::Waiting(e) => if kind_of(e@) == RetryErrorKind::Authentication {
                r == Some(e)
            } else {
                r is None
            },
            _ => r is None,
        },
{
    match status {
        ConnectionStatus::Waiting(error) => if is_auth_error(error.as_str()) {
            Some(error.clone())
        } else {
            None
        },
        _ => None,
    }
}

/// The rotation that the device page shows: the one in use, or, before
/// there is one (`u16::MAX`), the one the mode gives without the sensor.
pub fn shown_rotation(effective: u16, mode: RotationMode, info: &DeviceInfo) -> (r: u16)
    ensures
        r == (if effective == u16::MAX {
            effective_rotation(mode, info.model@, effective)
        } else {
            effective
        }),
{
    if effective == u16::MAX {
        mode.rotation(info, effective)
    } else {
        effective
    }
}

/// Whether automatic rotation can be chosen: not while connected to a
/// model without a rotation sensor.
pub fn auto_selectable(status: &ConnectionStatus) -> (r: bool)
    ensures
        r == !(match *status {
            ConnectionStatus::Connected(info) => !has_rotation_sensor(info.model@),
            _ => false,
        }),
{
    match status {
        ConnectionStatus::Connected(info) => info.supports_auto_rotation(),
        _ => true,
    }
}

// ---------------------------------------------------------------------------
// The panel window
// ---------------------------------------------------------------------------

/// What the panel window does after a frame.
#[derive(Debug, Clone, Copy, PartialEq, Eq, Structural)]
pub enum WindowAction {
    /// Show and focus the window for a new authentication failure.
    ShowAndFocus,
    /// Cancel the close request and hide the window.
    CancelCloseAndHide,
    /// Close the window.
    Close,
    /// Hide the window.
    Hide,
    /// Nothing.
    Keep,
}

/// What the panel window remembers between frames.
#[derive(Debug, Clone)]
pub struct PanelWindow {
    /// Whether the window had the focus.
    pub was_focused: bool,
    /// The authentication failure that the window last showed itself for.
    pub announced_auth_error: Option<String>,
    /// Whether the window closes (rather than hides) when it loses focus.
    pub auto_close: bool,
}

pub open spec fn opt_string_view(o: Option<String>) -> Option<Seq<char>> {
    match o {
        Some(s) => Some(s@),
        None => None,
    }
}

/// The window's action for a frame: `focused` is the focus the system
/// reports (if any), `close_requested` whether the user asked to close,
/// `quitting` whether the program quits, `auth_error` the authentication
/// failure the connection waits on. Returns the action and whether the
/// window has the focus afterwards.
pub open spec fn window_step(
    w: PanelWindow,
    focused: Option<bool>,
    close_requested: bool,
    quitting: bool,
    auth_error: Option<Seq<char>>,
) -> (WindowAction, bool) {
    if auth_error != opt_string_view(w.announced_auth_error) && auth_error is Some && !w.auto_close {
        (WindowAction::ShowAndFocus, false)
    } else if close_requested && !quitting && !w.auto_close {
        (WindowAction::CancelCloseAndHide, false)
    } else if w.was_focused && focused == Some(false) {
        (
            if w.auto_close {
                WindowAction::Close
            } else {
                WindowAction::Hide
            },
            false,
        )
    } else {
        (
            WindowAction::Keep,
            match focused {
                Some(f) => f,
                None => w.was_focused,
            },
        )
    }
}

fn opt_string_eq(a: &Option<String>, b: &Option<String>) -> (r: bool)
    ensures
        r == (opt_string_view(*a) == opt_string_view(*b)),
{
    match (a, b) {
        (Some(x), Some(y)) => {
            let xv = chars_of(x.as_str());
            let yv = chars_of(y.as_str());
            crate::text::seq_eq(&xv, &yv)
        },
        (None, None) => true,
        _ => false,
    }
}

impl PanelWindow {
    /// A window that has not had the focus yet.
    pub fn new(auto_close: bool) -> (r: Self)
        ensures
            !r.was_focused,
            r.announced_auth_error is None,
            r.auto_close == auto_close,
    {
        PanelWindow { was_focused: false, announced_auth_error: None, auto_close }
    }

    /// Decides what the window does after a frame.
    pub fn step(
        &mut self,
        focused: Option<bool>,
        close_requested: bool,
        quitting: bool,
        auth_error: Option<String>,
    ) -> (r: WindowAction)
        ensures
            (r, final(self).was_focused) == window_step(
                *old(self),
                focused,
                close_requested,
                quitting,
                opt_string_view(auth_error),
            ),
            final(self).auto_close == old(self).auto_close,
            opt_string_view(final(self).announced_auth_error) == opt_string_view(auth_error),
    {
        let changed = !opt_string_eq(&auth_error, &self.announced_auth_error);
        let some = auth_error.is_some();
        if changed {
            self.announced_auth_error = auth_error;
            if some && !self.auto_close {
                self.was_focused = false;
                return WindowAction::ShowAndFocus;
            }
        }
        if close_requested && !quitting && !self.auto_close {
            self.was_focused = false;
            WindowAction::CancelCloseAndHide
        } else if self.was_focused && focused == Some(false) {
            self.was_focused = false;
            if self.auto_close {
                WindowAction::Close
            } else {
                WindowAction::Hide
            }
        } else {
            if let Some(f) = focused {
                self.was_focused = f;
            }
            WindowAction::Keep
        }
    }
}

} // verus!
