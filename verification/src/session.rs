//! Session configuration and the attach decisions: which strategy to use,
//! what a failed attach means for the user, and whether the RTT scan found
//! the configured channel in each direction.
//!
//! The hardware steps themselves — opening the probe, attaching, scanning
//! target memory — are external capabilities; everything they leave to
//! decide is here.

use vstd::prelude::*;
use vstd::string::StringExecFns;
use crate::errors::{AttachFailureCategory, ChannelDirection, ConsoleError};

verus! {

/// The console's configuration, as resolved from the command line: the
/// chip to attach to, an optional custom chip-description file, the attach
/// strategy, an optional probe selector token, and an optional probe clock
/// speed in kHz.
pub struct Opts {
    pub chip: String,
    pub chip_description_path: Option<String>,
    pub connect_under_reset: bool,
    pub probe: Option<String>,
    pub speed: Option<u32>,
}

/// How the session attaches to the target: normally, or holding the target
/// in reset while the debug link comes up.
pub enum AttachStrategy {
    Normal,
    UnderReset,
}

/// The strategy the configuration calls for: reset-held exactly when
/// connect-under-reset was requested.
pub open spec fn spec_attach_strategy(connect_under_reset: bool) -> AttachStrategy {
    if connect_under_reset {
        AttachStrategy::UnderReset
    } else {
        AttachStrategy::Normal
    }
}

impl Opts {
    /// Picks the attach strategy these options call for.
    pub fn attach_strategy(&self) -> (r: AttachStrategy)
        ensures
            r == spec_attach_strategy(self.connect_under_reset),
    {
        if self.connect_under_reset {
            AttachStrategy::UnderReset
        } else {
            AttachStrategy::Normal
        }
    }
}

/// Whether a failed attach warrants the retry hint: only a normal attach
/// whose failure the transport classifies as "no device on the JTAG chain"
/// does — the hint recommends retrying under reset, so it would be noise
/// after a reset-held attempt, and for every other failure category the
/// heuristic stays silent. The diagnostic is purely informational: the
/// failure itself is always propagated unchanged.
pub fn should_advise_reset_retry(strategy: &AttachStrategy, category: &AttachFailureCategory) -> (r:
    bool)
    ensures
        r == (strategy is Normal && category is JtagNoDeviceConnected),
{
    match (strategy, category) {
        (AttachStrategy::Normal, AttachFailureCategory::JtagNoDeviceConnected) => true,
        _ => false,
    }
}

/// The lines of the retry hint that accompanies a "no device on the JTAG
/// chain" attach failure.
pub fn reset_retry_advice() -> (r: Vec<String>)
    ensures
        r@.len() == 4,
        r@[0]@ == "Info: the JTAG probe cannot find a connected device."@,
        r@[1]@ == "Help: check that the debugger is connected to the chip; if it is,"@,
        r@[2]@ == "      retry with --connect-under-reset. If that fixes it, the program"@,
        r@[3]@ == "      already in the chip may be the cause, and the flag a workaround."@,
{
    let mut lines: Vec<String> = Vec::new();
    lines.push(String::from_str("Info: the JTAG probe cannot find a connected device."));
    lines.push(String::from_str("Help: check that the debugger is connected to the chip; if it is,"));
    lines.push(String::from_str("      retry with --connect-under-reset. If that fixes it, the program"));
    lines.push(String::from_str("      already in the chip may be the cause, and the flag a workaround."));
    lines
}

/// Which RTT channel number each direction binds. Kept explicit so a later
/// multi-channel console needs no restructuring.
pub struct ChannelConfig {
    pub up_channel: usize,
    pub down_channel: usize,
}

impl Default for ChannelConfig {
    /// The default binding: channel 0 in both directions.
    fn default() -> (r: ChannelConfig)
        ensures
            r.up_channel == 0,
            r.down_channel == 0,
    {
        ChannelConfig { up_channel: 0, down_channel: 0 }
    }
}

/// Whether `channels` lists the channel number `x`.
fn contains_channel(channels: &Vec<usize>, x: usize) -> (r: bool)
    ensures
        r == channels@.contains(x),
{
    let mut i: usize = 0;
    while i < channels.len()
        invariant
            i <= channels@.len(),
            forall|k: int| 0 <= k < i ==> channels@[k] != x,
        decreases channels@.len() - i,
    {
        if channels[i] == x {
            return true;
        }
        i = i + 1;
    }
    false
}

/// Decides channel binding after the RTT scan. `up_found` and `down_found`
/// are the channel numbers the scan discovered in each direction; binding
/// succeeds exactly when the configured channel exists in both, and a
/// missing direction is a fatal `ChannelUnavailable` (the up direction is
/// checked first).
pub fn bind_channels(cfg: &ChannelConfig, up_found: &Vec<usize>, down_found: &Vec<usize>) -> (r:
    Result<(), ConsoleError>)
    ensures
        match r {
            Ok(_) => up_found@.contains(cfg.up_channel) && down_found@.contains(cfg.down_channel),
            Err(e) => match e {
                ConsoleError::ChannelUnavailable(d) => match d {
                    ChannelDirection::Up => !up_found@.contains(cfg.up_channel),
                    ChannelDirection::Down => up_found@.contains(cfg.up_channel)
                        && !down_found@.contains(cfg.down_channel),
                },
                _ => false,
            },
        },
{
    if !contains_channel(up_found, cfg.up_channel) {
        Err(ConsoleError::ChannelUnavailable(ChannelDirection::Up))
    } else if !contains_channel(down_found, cfg.down_channel) {
        Err(ConsoleError::ChannelUnavailable(ChannelDirection::Down))
    } else {
        Ok(())
    }
}

} // verus!
