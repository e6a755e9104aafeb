//! The console's failure taxonomy. Every error is fatal: nothing is retried,
//! each failure surfaces to the top level with one diagnostic message.

use vstd::prelude::*;
use vstd::string::StringExecFns;
use crate::probe::ProbeDescriptor;
use crate::text::{spec_dec, usize_to_dec};

verus! {

/// Direction of an RTT channel: `Up` flows target to host, `Down` flows
/// host to target.
#[derive(Debug)]
pub enum ChannelDirection {
    Up,
    Down,
}

/// The structured category of a target-attach failure, as exposed by the
/// transport layer. The console only distinguishes the one category it
/// reacts to (by printing a retry hint) from all others.
#[derive(Debug)]
pub enum AttachFailureCategory {
    /// The JTAG probe found no device on the scan chain.
    JtagNoDeviceConnected,
    /// Any other transport-specific attach failure.
    Other,
}

/// Every failure the console can report. None is recovered from: each one
/// terminates the run with a single diagnostic.
#[derive(Debug)]
pub enum ConsoleError {
    /// The probe selector token is not `serial`, `vid:pid` or
    /// `vid:pid:serial` with 16-bit hexadecimal ids.
    InvalidFilterFormat,
    /// Enumeration (after filtering) produced no candidate probe.
    NoProbeFound,
    /// Enumeration (after filtering) produced more than one candidate
    /// probe; the payload is the full candidate list, to be printed.
    AmbiguousProbe(Vec<ProbeDescriptor>),
    /// The selected probe could not be opened; the payload is the
    /// transport's message.
    ProbeOpenFailed(String),
    /// The probe rejected the requested clock speed, in kHz.
    UnsupportedSpeed(u32),
    /// Attaching to the target failed; the payload is the structured
    /// category and the transport's message.
    AttachFailed(AttachFailureCategory, String),
    /// The configured channel of the given direction was not found after
    /// the RTT scan.
    ChannelUnavailable(ChannelDirection),
    /// A read or write against the live link failed; the payload is the
    /// transport's message.
    CommunicationFailed(String),
}

/// The one diagnostic each failure surfaces with. The ambiguous-probe
/// message is followed by the rendered candidate list, which is not part
/// of the message itself.
pub open spec fn spec_message(e: &ConsoleError) -> Seq<char> {
    match e {
        ConsoleError::InvalidFilterFormat => "invalid probe filter: use 'serial', 'vid:pid' or 'vid:pid:serial' with 16-bit hexadecimal ids"@,
        ConsoleError::NoProbeFound => "no probe was found; common causes are faulty cables or missing permissions"@,
        ConsoleError::AmbiguousProbe(_) => "more than one probe found; use --probe to specify which one to use"@,
        ConsoleError::ProbeOpenFailed(m) => "the probe could not be opened: "@ + m@,
        ConsoleError::UnsupportedSpeed(khz) => "the probe rejected the requested speed in kHz: "@
            + spec_dec(*khz as nat),
        ConsoleError::AttachFailed(_, m) => "attaching to the target failed: "@ + m@,
        ConsoleError::ChannelUnavailable(d) => match d {
            ChannelDirection::Up => "the RTT up channel is missing from the target's control block"@,
            ChannelDirection::Down => "the RTT down channel is missing from the target's control block"@,
        },
        ConsoleError::CommunicationFailed(m) => "probe communication failed: "@ + m@,
    }
}

impl ConsoleError {
    /// Renders the diagnostic for this failure.
    pub fn message(&self) -> (r: String)
        ensures
            r@ == spec_message(self),
    {
        match self {
            ConsoleError::InvalidFilterFormat => String::from_str(
                "invalid probe filter: use 'serial', 'vid:pid' or 'vid:pid:serial' with 16-bit hexadecimal ids",
            ),
            ConsoleError::NoProbeFound => String::from_str(
                "no probe was found; common causes are faulty cables or missing permissions",
            ),
            ConsoleError::AmbiguousProbe(_) => String::from_str(
                "more than one probe found; use --probe to specify which one to use",
            ),
            ConsoleError::ProbeOpenFailed(m) => {
                let mut s = String::from_str("the probe could not be opened: ");
                s.append(m.as_str());
                s
            },
            ConsoleError::UnsupportedSpeed(khz) => {
                let mut s = String::from_str("the probe rejected the requested speed in kHz: ");
                let dec = usize_to_dec(*khz as usize);
                s.append(dec.as_str());
                s
            },
            ConsoleError::AttachFailed(_, m) => {
                let mut s = String::from_str("attaching to the target failed: ");
                s.append(m.as_str());
                s
            },
            ConsoleError::ChannelUnavailable(d) => match d {
                ChannelDirection::Up => String::from_str(
                    "the RTT up channel is missing from the target's control block",
                ),
                ChannelDirection::Down => String::from_str(
                    "the RTT down channel is missing from the target's control block",
                ),
            },
            ConsoleError::CommunicationFailed(m) => {
                let mut s = String::from_str("probe communication failed: ");
                s.append(m.as_str());
                s
            },
        }
    }
}

} // verus!
