//! Errors from input capture and injection.

use vstd::prelude::*;

verus! {

/// A failure in the input layer.
#[derive(Debug, Clone, PartialEq, Eq)]
pub enum InputError {
    /// The OS refused because a required permission is missing: the only
    /// error the user can fix, so the UI routes it to the permission workflow.
    PermissionDenied {
        /// What was attempted.
        operation: &'static str,
        /// The permission needed, as a display name.
        permission: &'static str,
    },
    /// The OS revoked an active capture; recoverable by re-arming.
    CaptureDisabled {
        /// Why the OS disabled it.
        reason: &'static str,
    },
    /// Another process is blocking input capture, such as a focused password
    /// field enabling Secure Input.
    Blocked {
        /// The responsible process, when the OS identifies it.
        blocking_pid: Option<u32>,
    },
    /// The operation needs capture to be running, and it is not.
    NotRunning,
    /// The event contained a value that must never reach an OS input API.
    Malformed {
        /// What was wrong.
        reason: &'static str,
    },
    /// An OS call failed.
    OsCall {
        /// The API that failed.
        api: &'static str,
        /// Detail from the OS.
        detail: String,
    },
    /// Not implemented on this platform.
    Unsupported {
        /// What was attempted.
        what: &'static str,
    },
}

/// True if re-arming capture could plausibly recover.
pub open spec fn recoverable(e: InputError) -> bool {
    e is CaptureDisabled || e is NotRunning
}

/// True if only the user can resolve this, via the OS.
pub open spec fn user_actionable(e: InputError) -> bool {
    e is PermissionDenied || e is Blocked
}

/// Decimal digits of `n`, without leading zeros.
pub open spec fn decimal_of(n: nat) -> Seq<char>
    decreases n,
{
    if n < 10 {
        seq![(48 + n) as char]
    } else {
        decimal_of(n / 10) + seq![(48 + n % 10) as char]
    }
}

/// The message an error displays.
pub open spec fn error_message(e: InputError) -> Seq<char> {
    match e {
        InputError::PermissionDenied { operation, permission } => operation@ + " requires the "@
            + permission@ + " permission"@,
        InputError::CaptureDisabled { reason } => "input capture was disabled by the operating system: "@
            + reason@,
        InputError::Blocked { blocking_pid } => "another application is blocking keyboard capture"@
            + match blocking_pid {
            Some(pid) => " (process "@ + decimal_of(pid as nat) + ")"@,
            None => Seq::empty(),
        },
        InputError::NotRunning => "input capture is not running"@,
        InputError::Malformed { reason } => "refusing to inject a malformed event: "@ + reason@,
        InputError::OsCall { api, detail } => api@ + " failed: "@ + detail@,
        InputError::Unsupported { what } => what@ + " is not supported on this platform"@,
    }
}

/// Appends the decimal digits of `n` to `out`.
pub fn push_decimal(out: &mut String, n: u64)
    ensures
        final(out)@ == old(out)@ + decimal_of(n as nat),
    decreases n,
{
    let digits = "0123456789";
    proof {
        reveal_strlit("0123456789");
    }
    if n >= 10 {
        push_decimal(out, n / 10);
    }
    let d: usize = (n % 10) as usize;
    let digit = digits.substring_char(d, d + 1);
    assert(digit@ =~= seq![(48 + n as nat % 10) as char]);
    out.append(digit);
}

impl InputError {
    /// True if re-arming capture could plausibly recover: a disabled tap is
    /// re-armed at once, while a missing permission is never retried in a
    /// loop.
    pub fn is_recoverable(&self) -> (r: bool)
        ensures
            r == recoverable(*self),
    {
        match self {
            InputError::CaptureDisabled { .. } | InputError::NotRunning => true,
            _ => false,
        }
    }

    /// True if only the user can resolve this, via the OS.
    pub fn needs_user_action(&self) -> (r: bool)
        ensures
            r == user_actionable(*self),
    {
        match self {
            InputError::PermissionDenied { .. } | InputError::Blocked { .. } => true,
            _ => false,
        }
    }

    /// The message shown for this error.
    pub fn to_string(&self) -> (s: String)
        ensures
            s@ == error_message(*self),
    {
        match self {
            InputError::PermissionDenied { operation, permission } => {
                let mut s = String::from_str(operation);
                s.append(" requires the ");
                s.append(permission);
                s.append(" permission");
                s
            },
            InputError::CaptureDisabled { reason } => {
                let mut s = String::from_str("input capture was disabled by the operating system: ");
                s.append(reason);
                s
            },
            InputError::Blocked { blocking_pid } => {
                let mut s = String::from_str("another application is blocking keyboard capture");
                match blocking_pid {
                    Some(pid) => {
                        s.append(" (process ");
                        push_decimal(&mut s, *pid as u64);
                        s.append(")");
                    },
                    None => {
                        assert(s@ + Seq::<char>::empty() =~= s@);
                    },
                }
                s
            },
            InputError::NotRunning => String::from_str("input capture is not running"),
            InputError::Malformed { reason } => {
                let mut s = String::from_str("refusing to inject a malformed event: ");
                s.append(reason);
                s
            },
            InputError::OsCall { api, detail } => {
                let mut s = String::from_str(api);
                s.append(" failed: ");
                s.append(detail.as_str());
                s
            },
            InputError::Unsupported { what } => {
                let mut s = String::from_str(what);
                s.append(" is not supported on this platform");
                s
            },
        }
    }
}

/// No error is both recoverable by re-arming and in need of the user: a retry
/// loop can therefore never spin on something only the user can fix.
pub proof fn law_recoverable_and_user_actionable_are_disjoint(e: InputError)
    ensures
        !(recoverable(e) && user_actionable(e)),
{
}

} // verus!
