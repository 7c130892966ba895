//! The configuration schema and the rules a loaded file must satisfy.
//!
//! The file is user-editable, so every value is checked at the boundary: a
//! hand-typed `cooldown_ms = 0` is fine, but a privileged port or a
//! non-finite distance is refused with the field and the acceptable range.

pub mod migrate;
pub mod store;

use vstd::prelude::*;

verus! {

/// Schema version written by this build.
pub const CURRENT_VERSION: u32 = 1;

/// Default UDP port for the transport and discovery.
pub const DEFAULT_PORT: u16 = 25470;

/// Lowest port accepted: privileged ports would require running as root.
pub const MIN_PORT: u16 = 1024;

/// Most manually entered peers accepted.
pub const MAX_MANUAL_PEERS: usize = 64;

/// Longest cooldown accepted, in milliseconds.
pub const MAX_COOLDOWN_MS: u64 = 10000;

/// Default cooldown after a crossing, in milliseconds.
pub const DEFAULT_COOLDOWN_MS: u64 = 200;

/// Bit pattern of the `f64` value 12.0, the default edge overshoot in points.
pub const DEFAULT_OVERSHOOT_BITS: u64 = 0x4028_0000_0000_0000;

/// Bit pattern of the `f64` value 8.0, the default corner dead zone in points.
pub const DEFAULT_CORNER_BITS: u64 = 0x4020_0000_0000_0000;

/// Bit pattern of the `f64` value 500.0, the largest distance accepted.
pub const MAX_POINTS_BITS: u64 = 0x407F_4000_0000_0000;

/// Bit pattern of the `f64` value -0.0.
pub const NEGATIVE_ZERO_BITS: u64 = 0x8000_0000_0000_0000;

/// A configuration value outside its acceptable range.
#[derive(Debug, Clone, PartialEq, Eq)]
pub struct ValidationError {
    /// Dotted path of the offending field, e.g. `switching.cooldown_ms`.
    pub field: &'static str,
    /// Human-readable explanation, including the acceptable range.
    pub reason: String,
}

impl ValidationError {
    /// An error for `field`, explained by `reason`.
    pub fn new(field: &'static str, reason: &str) -> (e: ValidationError)
        ensures
            e.field == field,
            e.reason@ == reason@,
    {
        ValidationError { field, reason: String::from_str(reason) }
    }

    /// The message shown for this error.
    pub fn to_string(&self) -> (s: String)
        ensures
            s@ == self.field@ + " is out of range: "@ + self.reason@,
    {
        let mut s = String::from_str(self.field);
        s.append(" is out of range: ");
        s.append(self.reason.as_str());
        s
    }
}

/// Transport and discovery settings.
#[derive(Debug, Clone)]
pub struct NetworkConfig {
    /// UDP port for the transport and discovery.
    pub port: u16,
    /// Whether to announce and browse for peers on the local network.
    pub discovery_enabled: bool,
    /// Peers to contact directly, as `host` or `host:port`: the escape hatch
    /// for networks where multicast and broadcast are filtered.
    pub manual_peers: Vec<String>,
}

impl Default for NetworkConfig {
    fn default() -> (n: NetworkConfig)
        ensures
            n.port == DEFAULT_PORT,
            n.discovery_enabled,
            n.manual_peers@.len() == 0,
    {
        NetworkConfig { port: DEFAULT_PORT, discovery_enabled: true, manual_peers: Vec::new() }
    }
}

/// The field a network configuration fails on first, with the explanation
/// given, if any.
pub open spec fn network_failure(port: u16, manual_peers: nat) -> Option<(&'static str, &'static str)> {
    if port < MIN_PORT {
        Some(
            (
                "network.port",
                "must be 1024 or above; privileged ports would require running as root",
            ),
        )
    } else if manual_peers > MAX_MANUAL_PEERS {
        Some(("network.manual_peers", "at most 64 entries"))
    } else {
        None
    }
}

impl NetworkConfig {
    /// Checks the port and the number of manual peers, in that order.
    pub fn validate(&self) -> (r: Result<(), ValidationError>)
        ensures
            match network_failure(self.port, self.manual_peers@.len()) {
                None => r is Ok,
                Some(failure) => r matches Err(e) && e.field == failure.0 && e.reason@ == failure.1@,
            },
    {
        if self.port < MIN_PORT {
            return Err(
                ValidationError::new(
                    "network.port",
                    "must be 1024 or above; privileged ports would require running as root",
                ),
            );
        }
        if self.manual_peers.len() > MAX_MANUAL_PEERS {
            return Err(ValidationError::new("network.manual_peers", "at most 64 entries"));
        }
        Ok(())
    }
}

/// True when `bits` encodes a finite `f64` between 0 and 500 inclusive.
///
/// Non-negative IEEE-754 values order like their bit patterns, so the finite
/// values in `[0, 500]` are exactly the patterns from `+0.0` up to that of
/// `500.0`; `-0.0` compares equal to zero and is accepted too. Every NaN,
/// infinity and negative value falls outside.
pub open spec fn points_acceptable(bits: u64) -> bool {
    bits <= MAX_POINTS_BITS || bits == NEGATIVE_ZERO_BITS
}

/// Edge-crossing behaviour: the anti-jitter controls.
///
/// The two distances are `f64` values in logical points, held as their bit
/// patterns.
#[derive(Debug, Clone, Copy, PartialEq, Eq, Structural)]
pub struct SwitchingConfig {
    /// Master switch for handing input to other devices.
    pub enabled: bool,
    /// Bit pattern of the continued outward motion, in points, needed to
    /// commit a crossing.
    pub edge_overshoot_points_bits: u64,
    /// Milliseconds after a crossing during which no further crossing occurs.
    pub cooldown_ms: u64,
    /// Bit pattern of the size, in points, of the excluded region at each
    /// screen corner.
    pub corner_deadzone_points_bits: u64,
}

impl Default for SwitchingConfig {
    fn default() -> (s: SwitchingConfig)
        ensures
            s.enabled,
            s.edge_overshoot_points_bits == DEFAULT_OVERSHOOT_BITS,
            s.cooldown_ms == DEFAULT_COOLDOWN_MS,
            s.corner_deadzone_points_bits == DEFAULT_CORNER_BITS,
    {
        SwitchingConfig {
            enabled: true,
            edge_overshoot_points_bits: DEFAULT_OVERSHOOT_BITS,
            cooldown_ms: DEFAULT_COOLDOWN_MS,
            corner_deadzone_points_bits: DEFAULT_CORNER_BITS,
        }
    }
}

/// The field a switching configuration fails on first, with the
/// explanation given, if any.
pub open spec fn switching_failure(s: SwitchingConfig) -> Option<(&'static str, &'static str)> {
    if !points_acceptable(s.edge_overshoot_points_bits) {
        Some(("switching.edge_overshoot_points", "must be a finite value between 0 and 500"))
    } else if s.cooldown_ms > MAX_COOLDOWN_MS {
        Some(("switching.cooldown_ms", "must be 10000 or below"))
    } else if !points_acceptable(s.corner_deadzone_points_bits) {
        Some(("switching.corner_deadzone_points", "must be a finite value between 0 and 500"))
    } else {
        None
    }
}

impl SwitchingConfig {
    /// Checks the overshoot, the cooldown and the corner dead zone, in that
    /// order. Zero is accepted for each: the check guards against nonsense,
    /// not against aggressive tuning.
    pub fn validate(&self) -> (r: Result<(), ValidationError>)
        ensures
            match switching_failure(*self) {
                None => r is Ok,
                Some(failure) => r matches Err(e) && e.field == failure.0 && e.reason@ == failure.1@,
            },
    {
        if !(self.edge_overshoot_points_bits <= MAX_POINTS_BITS
            || self.edge_overshoot_points_bits == NEGATIVE_ZERO_BITS) {
            return Err(
                ValidationError::new(
                    "switching.edge_overshoot_points",
                    "must be a finite value between 0 and 500",
                ),
            );
        }
        if self.cooldown_ms > MAX_COOLDOWN_MS {
            return Err(ValidationError::new("switching.cooldown_ms", "must be 10000 or below"));
        }
        if !(self.corner_deadzone_points_bits <= MAX_POINTS_BITS
            || self.corner_deadzone_points_bits == NEGATIVE_ZERO_BITS) {
            return Err(
                ValidationError::new(
                    "switching.corner_deadzone_points",
                    "must be a finite value between 0 and 500",
                ),
            );
        }
        Ok(())
    }
}

/// Checks a configuration's network settings, then its switching settings,
/// and reports the first field that fails.
pub fn validate(network: &NetworkConfig, switching: &SwitchingConfig) -> (r: Result<
    (),
    ValidationError,
>)
    ensures
        match network_failure(network.port, network.manual_peers@.len()) {
            Some(failure) => r matches Err(e) && e.field == failure.0 && e.reason@ == failure.1@,
            None => match switching_failure(*switching) {
                None => r is Ok,
                Some(failure) => r matches Err(e) && e.field == failure.0 && e.reason@ == failure.1@,
            },
        },
{
    network.validate()?;
    switching.validate()?;
    Ok(())
}

/// Log verbosity.
#[derive(Debug, Clone, Copy, PartialEq, Eq, Structural)]
pub enum LogLevel {
    /// Failures that stop a feature working.
    Error,
    /// Recoverable problems worth surfacing.
    Warn,
    /// Lifecycle events. The default.
    Info,
    /// Detailed diagnostics.
    Debug,
    /// Per-event tracing; never enabled on the input path in a release build.
    Trace,
}

impl Default for LogLevel {
    fn default() -> (l: LogLevel)
        ensures
            l == LogLevel::Info,
    {
        LogLevel::Info
    }
}

/// The filter directive for a level.
pub open spec fn filter_text(level: LogLevel) -> Seq<char> {
    match level {
        LogLevel::Error => "error"@,
        LogLevel::Warn => "warn"@,
        LogLevel::Info => "info"@,
        LogLevel::Debug => "debug"@,
        LogLevel::Trace => "trace"@,
    }
}

impl LogLevel {
    /// The `tracing` filter directive for this level.
    pub fn as_filter_str(self) -> (s: &'static str)
        ensures
            s@ == filter_text(self),
    {
        match self {
            LogLevel::Error => "error",
            LogLevel::Warn => "warn",
            LogLevel::Info => "info",
            LogLevel::Debug => "debug",
            LogLevel::Trace => "trace",
        }
    }
}

/// Diagnostics settings.
#[derive(Debug, Clone, Copy, PartialEq, Eq, Structural)]
pub struct LoggingConfig {
    /// Verbosity.
    pub level: LogLevel,
    /// Whether to also write a rotating log file next to the configuration.
    pub file_enabled: bool,
}

impl Default for LoggingConfig {
    fn default() -> (l: LoggingConfig)
        ensures
            l.level == LogLevel::Info,
            l.file_enabled,
    {
        LoggingConfig { level: LogLevel::Info, file_enabled: true }
    }
}

} // verus!
