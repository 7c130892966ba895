//! The snapshot the user interface renders: a flat, presentation-shaped
//! projection of internal state, so the interface never reimplements a rule
//! the core already enforces.

use vstd::prelude::*;
use crate::keycode::str_eq;

verus! {

/// A privacy permission the operating system gates input sharing behind.
#[derive(Debug, Clone, Copy, PartialEq, Eq, Structural, Hash)]
pub enum Permission {
    /// Posting synthetic input and reading the pointer.
    Accessibility,
    /// Observing keyboard input from other applications.
    InputMonitoring,
}

impl Permission {
    /// Every permission, in a stable order.
    pub fn all() -> (ps: [Permission; 2])
        ensures
            ps@ == seq![Permission::Accessibility, Permission::InputMonitoring],
    {
        [Permission::Accessibility, Permission::InputMonitoring]
    }
}

/// The stable key of a permission.
pub open spec fn key_text(p: Permission) -> Seq<char> {
    match p {
        Permission::Accessibility => "accessibility"@,
        Permission::InputMonitoring => "input-monitoring"@,
    }
}

/// The permission a key names, if any.
pub open spec fn permission_of_key(key: Seq<char>) -> Option<Permission> {
    if key == key_text(Permission::Accessibility) {
        Some(Permission::Accessibility)
    } else if key == key_text(Permission::InputMonitoring) {
        Some(Permission::InputMonitoring)
    } else {
        None
    }
}

/// Stable key for a permission, used by the interface to pick copy and icons.
/// Deliberately separate from display text, which may be reworded.
pub fn permission_key(permission: Permission) -> (k: &'static str)
    ensures
        k@ == key_text(permission),
{
    match permission {
        Permission::Accessibility => "accessibility",
        Permission::InputMonitoring => "input-monitoring",
    }
}

/// Resolves a key from the interface back to a permission. The key is
/// untrusted input: an unrecognised one yields `None`.
pub fn permission_from_key(key: &str) -> (p: Option<Permission>)
    ensures
        p == permission_of_key(key@),
{
    let all = Permission::all();
    let mut i: usize = 0;
    while i < 2
        invariant
            i <= 2,
            all@ == seq![Permission::Accessibility, Permission::InputMonitoring],
            forall|j: int| 0 <= j < i ==> key@ != key_text(#[trigger] all@[j]),
        decreases 2 - i,
    {
        let candidate = all[i];
        if str_eq(permission_key(candidate), key) {
            proof {
                if i == 1 {
                    assert(key@ != key_text(Permission::Accessibility)) by {
                        assert(all@[0] == Permission::Accessibility);
                    }
                }
            }
            return Some(candidate);
        }
        i = i + 1;
    }
    assert(key@ != key_text(all@[0]) && key@ != key_text(all@[1]));
    None
}

/// Every permission's key resolves back to that permission.
pub proof fn law_permission_keys_round_trip(p: Permission)
    ensures
        permission_of_key(key_text(p)) == Some(p),
{
    reveal_strlit("accessibility");
    reveal_strlit("input-monitoring");
    assert(key_text(Permission::InputMonitoring) != key_text(Permission::Accessibility)) by {
        assert("input-monitoring"@[0] != "accessibility"@[0]);
    }
}

/// Why the previous session's settings are not in effect.
#[derive(Debug, Clone, PartialEq, Eq)]
pub enum StartupNotice {
    /// A configuration was created for a first run.
    FirstRun,
    /// Settings were carried forward from an older schema version.
    Migrated {
        /// Version the file was written at.
        from_version: u32,
    },
    /// The configuration file was unreadable and has been reset; the
    /// interface must say so prominently, with where the damaged file went.
    Recovered {
        /// Where the damaged file was kept.
        backup_path: String,
        /// Why it could not be used.
        reason: String,
    },
}

/// Identity of this device, as shown in the dashboard.
#[derive(Debug, Clone, PartialEq, Eq)]
pub struct DeviceStatus {
    /// Short form of the device identifier, for display only.
    pub id_short: String,
    /// User-facing device name.
    pub name: String,
    /// Operating system family, e.g. `macOS`.
    pub os: String,
    /// OS version, e.g. `15.7.9`.
    pub os_version: String,
    /// CPU architecture, e.g. `arm64`.
    pub arch: String,
}

/// One privacy permission and what the interface should offer for it.
#[derive(Debug, Clone, PartialEq, Eq)]
pub struct PermissionEntry {
    /// Stable machine-readable key, e.g. `accessibility`.
    pub id: String,
    /// Short label.
    pub title: String,
    /// Plain-language explanation of why it is needed.
    pub rationale: String,
    /// Whether the capability behind it will work.
    pub granted: bool,
    /// Whether a prompt could still change the outcome; when false and not
    /// granted, the interface links to the system settings instead.
    pub can_prompt: bool,
}

} // verus!
