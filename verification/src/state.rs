use vstd::prelude::*;

use crate::device::DeviceInfo;
use crate::retry::{is_auth_error, kind_of, same_error_type, same_kind, RetryErrorKind};
use crate::rotation::{mode_code, mode_of_code, valid_mode, RotationMode};

verus! {

/// Where the connection stands, as the panel shows it.
#[derive(Debug, Clone)]
pub enum ConnectionStatus {
    Connecting,
    /// Disconnected after the error; a new attempt follows.
    Waiting(String),
    Connected(DeviceInfo),
}

/// The state that the connection worker and the panel share: the panel
/// changes the settings, the worker reads them when it connects and
/// starts again when the revision moves on.
#[derive(Debug)]
pub struct SharedState {
    pub connection: ConnectionStatus,
    /// The rotation mode, as `RotationMode::encode` keeps it.
    pub rotation_mode: u16,
    /// Counts the changes that call for a new connection.
    pub revision: u64,
    /// The rotation in use, `u16::MAX` when none is known yet.
    pub effective_rotation: u16,
    pub host: String,
    pub password: Option<String>,
    pub stop: bool,
}

/// The revision after one more change; it wraps around.
pub open spec fn next_revision(r: u64) -> u64 {
    if r == u64::MAX {
        0
    } else {
        (r + 1) as u64
    }
}

/// `s` after a request to reconnect: connecting again, with the next
/// revision, and nothing else changed.
pub open spec fn reconnected(old: SharedState, new: SharedState) -> bool {
    &&& new.connection is Connecting
    &&& new.revision == next_revision(old.revision)
    &&& new.rotation_mode == old.rotation_mode
    &&& new.effective_rotation == old.effective_rotation
    &&& new.host == old.host
    &&& new.password == old.password
    &&& new.stop == old.stop
}

pub open spec fn opt_string_view(o: Option<String>) -> Option<Seq<char>> {
    match o {
        Some(s) => Some(s@),
        None => None,
    }
}

/// Whether the panel keeps the error it shows when `error` comes: it shows
/// an error of the same kind already.
pub open spec fn keeps_shown(c: ConnectionStatus, error: Seq<char>) -> bool {
    match c {
        ConnectionStatus::Waiting(current) => same_kind(current@, error),
        _ => false,
    }
}

/// `s` after a failed connection with `error`: waiting with the error shown,
/// unless one of the same kind is shown already; nothing else changed.
pub open spec fn after_failure(s: SharedState, error: String) -> SharedState {
    if keeps_shown(s.connection, error@) {
        s
    } else {
        SharedState { connection: ConnectionStatus::Waiting(error), ..s }
    }
}

/// How the worker waits after a failed connection.
#[derive(Debug, Clone, Copy, PartialEq, Eq, Structural)]
pub enum RetryPlan {
    /// The credentials were refused: wait until the settings change (the
    /// revision moves on from `revision`) or the worker is asked to stop.
    NewSettings { revision: u64 },
    /// Wait `steps` steps of 100 ms, unless asked to stop, then connect again.
    Pause { steps: u32 },
}

/// The wait after `error` while the revision is `revision`: new settings
/// for an authentication failure, else a pause of ten steps (one second).
pub open spec fn retry_plan(error: Seq<char>, revision: u64) -> RetryPlan {
    if kind_of(error) == RetryErrorKind::Authentication {
        RetryPlan::NewSettings { revision }
    } else {
        RetryPlan::Pause { steps: 10 }
    }
}

/// Whether the wait of `plan` is over in state `s` after `waited` steps: a
/// stop request ends every wait.
pub open spec fn wait_is_over(s: SharedState, plan: RetryPlan, waited: u32) -> bool {
    s.stop || match plan {
        RetryPlan::NewSettings { revision } => s.revision != revision,
        RetryPlan::Pause { steps } => waited >= steps,
    }
}

/// The settings that one connection attempt uses.
#[derive(Debug, Clone)]
pub struct Attempt {
    pub mode: RotationMode,
    /// The revision of the settings; the attempt ends when it moves on.
    pub revision: u64,
    pub host: String,
    pub password: Option<String>,
}

fn bump(r: u64) -> (n: u64)
    ensures
        n == next_revision(r),
{
    r.wrapping_add(1)
}

impl SharedState {
    /// The stored rotation mode is a number that `RotationMode::encode`
    /// gives.
    pub open spec fn well_formed(self) -> bool {
        self.rotation_mode <= 5
    }

    /// The state before the first connection.
    pub fn new(rotation_mode: RotationMode, host: String, password: Option<String>) -> (r: Self)
        requires
            valid_mode(rotation_mode),
        ensures
            r.well_formed(),
            r.connection is Connecting,
            r.rotation_mode == mode_code(rotation_mode),
            r.revision == 0,
            r.effective_rotation == u16::MAX,
            r.host == host,
            r.password == password,
            !r.stop,
    {
        SharedState {
            connection: ConnectionStatus::Connecting,
            rotation_mode: rotation_mode.encode(),
            revision: 0,
            effective_rotation: u16::MAX,
            host,
            password,
            stop: false,
        }
    }

    /// The rotation mode in effect.
    pub fn rotation_mode(&self) -> (r: RotationMode)
        ensures
            r == mode_of_code(self.rotation_mode),
    {
        RotationMode::decode(self.rotation_mode)
    }

    /// Sets the rotation mode; a change of mode reconnects.
    pub fn set_rotation_mode(&mut self, mode: RotationMode)
        requires
            valid_mode(mode),
        ensures
            final(self).well_formed(),
            old(self).rotation_mode != mode_code(mode) ==> reconnected(
                SharedState { rotation_mode: mode_code(mode), ..*old(self) },
                *final(self),
            ),
            old(self).rotation_mode == mode_code(mode) ==> *final(self) == *old(self),
            final(self).rotation_mode == mode_code(mode),
            old(self).well_formed() ==> (mode_of_code(old(self).rotation_mode) == mode
                <==> *final(self) == *old(self)),
    {
        let code = mode.encode();
        let previous = self.rotation_mode;
        self.rotation_mode = code;
        if previous != code {
            self.reconnect();
        }
    }

    /// Sets the SSH password and reconnects.
    pub fn set_password(&mut self, password: Option<String>)
        ensures
            old(self).well_formed() ==> final(self).well_formed(),
            reconnected(SharedState { password: password, ..*old(self) }, *final(self)),
    {
        self.password = password;
        self.reconnect();
    }

    /// Sets the SSH target with its password and reconnects.
    pub fn set_host(&mut self, host: String, password: Option<String>)
        ensures
            old(self).well_formed() ==> final(self).well_formed(),
            reconnected(SharedState { host: host, password: password, ..*old(self) }, *final(self)),
    {
        self.host = host;
        self.password = password;
        self.reconnect();
    }

    /// Asks the worker to connect again.
    pub fn reconnect(&mut self)
        ensures
            old(self).well_formed() ==> final(self).well_formed(),
            reconnected(*old(self), *final(self)),
    {
        self.set_connection(ConnectionStatus::Connecting);
        self.revision = bump(self.revision);
    }

    /// Asks the worker to stop.
    pub fn stop(&mut self)
        ensures
            old(self).well_formed() ==> final(self).well_formed(),
            *final(self) == (SharedState {
                stop: true,
                revision: next_revision(old(self).revision),
                ..*old(self)
            }),
    {
        self.stop = true;
        self.revision = bump(self.revision);
    }

    pub fn set_connection(&mut self, status: ConnectionStatus)
        ensures
            old(self).well_formed() ==> final(self).well_formed(),
            *final(self) == (SharedState { connection: status, ..*old(self) }),
    {
        self.connection = status;
    }

    /// Shows `error`, unless an error of the same kind is shown already.
    pub fn set_waiting(&mut self, error: String)
        ensures
            old(self).well_formed() ==> final(self).well_formed(),
            *final(self) == after_failure(*old(self), error),
    {
        let keep = match &self.connection {
            ConnectionStatus::Waiting(current) => same_error_type(current.as_str(), error.as_str()),
            _ => false,
        };
        if !keep {
            self.connection = ConnectionStatus::Waiting(error);
        }
    }

    /// Records a failed connection: shows the error as `set_waiting` does
    /// and returns how the worker waits before it connects again.
    pub fn fail(&mut self, error: String) -> (r: RetryPlan)
        ensures
            old(self).well_formed() ==> final(self).well_formed(),
            r == retry_plan(error@, old(self).revision),
            *final(self) == after_failure(*old(self), error),
    {
        let plan = if is_auth_error(error.as_str()) {
            RetryPlan::NewSettings { revision: self.revision }
        } else {
            RetryPlan::Pause { steps: 10 }
        };
        self.set_waiting(error);
        plan
    }

    /// Starts a connection attempt: none when the worker is asked to stop;
    /// else the rotation in use is forgotten until the session knows it, and
    /// the attempt takes the current mode, revision, target and password.
    pub fn begin_attempt(&mut self) -> (r: Option<Attempt>)
        ensures
            old(self).well_formed() ==> final(self).well_formed(),
            old(self).stop ==> r is None && *final(self) == *old(self),
            !old(self).stop ==> *final(self) == (SharedState {
                effective_rotation: u16::MAX,
                ..*old(self)
            }),
            !old(self).stop ==> (r matches Some(a) && a.mode == mode_of_code(old(self).rotation_mode)
                && a.revision == old(self).revision && a.host == old(self).host && a.password
                == old(self).password),
    {
        if self.stop {
            return None;
        }
        self.effective_rotation = u16::MAX;
        let password = match &self.password {
            Some(p) => Some(p.clone()),
            None => None,
        };
        Some(
            Attempt {
                mode: self.rotation_mode(),
                revision: self.revision,
                host: self.host.clone(),
                password,
            },
        )
    }

    /// Whether an attempt made at `revision` goes on: the worker is not
    /// asked to stop and the settings have not changed since.
    pub fn still_current(&self, revision: u64) -> (r: bool)
        ensures
            r == (!self.stop && self.revision == revision),
    {
        !self.stop && self.revision == revision
    }

    /// Whether the wait that `plan` asks for is over after `waited` steps
    /// of 100 ms.
    pub fn wait_over(&self, plan: RetryPlan, waited: u32) -> (r: bool)
        ensures
            r == wait_is_over(*self, plan, waited),
    {
        if self.stop {
            return true;
        }
        match plan {
            RetryPlan::NewSettings { revision } => self.revision != revision,
            RetryPlan::Pause { steps } => waited >= steps,
        }
    }
}

} // verus!
