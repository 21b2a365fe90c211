use vstd::prelude::*;
use crate::config::AppConfig;
use crate::inspector::InspectError;

verus! {

/// Bits per second in one megabit per second.
pub const BPS_PER_MBPS: u64 = 1_000_000;

/// The outcome of one health check, before any recovery runs.
#[derive(Debug, Clone)]
pub enum HealthDecision {
    /// No adapter matched the configured name.
    AdapterNotFound,
    /// The adapter enumeration failed.
    InspectFailed(InspectError),
    /// The link runs above the threshold.
    SpeedNormal,
    /// The link is degraded, but the check was not forced by a wake event.
    IgnoredNotWake,
    /// The link is degraded after a wake event: restart this device.
    RestartDevice { target: String, dwell_secs: u64 },
}

/// The decision table of a health check, over a reading of the link speed.
pub open spec fn spec_decide(
    target: Seq<char>,
    threshold: u64,
    dwell_secs: u64,
    reading: Result<Option<u64>, InspectError>,
    forced: bool,
    d: HealthDecision,
) -> bool {
    match reading {
        Err(e) => d == HealthDecision::InspectFailed(e),
        Ok(None) => d == HealthDecision::AdapterNotFound,
        Ok(Some(speed)) => if speed > threshold {
            d == HealthDecision::SpeedNormal
        } else if !forced {
            d == HealthDecision::IgnoredNotWake
        } else {
            match d {
                HealthDecision::RestartDevice { target: t, dwell_secs: w } => t@ == target && w
                    == dwell_secs,
                _ => false,
            }
        },
    }
}

/// The reading found the adapter at or below the threshold.
pub open spec fn is_degraded(reading: Result<Option<u64>, InspectError>, threshold: u64) -> bool {
    match reading {
        Ok(Some(speed)) => speed <= threshold,
        _ => false,
    }
}

/// The decision is one that starts a device recovery.
pub open spec fn is_restart(d: HealthDecision) -> bool {
    d is RestartDevice
}

/// Decides what a health check does with a link-speed reading.
pub fn evaluate(
    config: &AppConfig,
    reading: Result<Option<u64>, InspectError>,
    forced: bool,
) -> (d: HealthDecision)
    ensures
        spec_decide(
            config.target_adapter_name@,
            config.link_speed_threshold_bps,
            config.restart_delay_secs,
            reading,
            forced,
            d,
        ),
        is_restart(d) <==> forced && is_degraded(reading, config.link_speed_threshold_bps),
{
    match reading {
        Err(e) => HealthDecision::InspectFailed(e),
        Ok(None) => HealthDecision::AdapterNotFound,
        Ok(Some(speed)) => {
            if speed > config.link_speed_threshold_bps {
                HealthDecision::SpeedNormal
            } else if !forced {
                HealthDecision::IgnoredNotWake
            } else {
                HealthDecision::RestartDevice {
                    target: config.target_adapter_name.clone(),
                    dwell_secs: config.restart_delay_secs,
                }
            }
        },
    }
}

/// A speed in bits per second, in whole megabits per second.
pub fn to_mbps(bps: u64) -> (r: u64)
    ensures
        r == bps / BPS_PER_MBPS,
{
    bps / BPS_PER_MBPS
}

/// A check that is not forced never restarts the device, whatever the
/// threshold and however low the reading.
pub proof fn lemma_unforced_never_restarts(
    target: Seq<char>,
    threshold: u64,
    dwell_secs: u64,
    speed: u64,
    d: HealthDecision,
)
    requires
        speed <= threshold,
        spec_decide(target, threshold, dwell_secs, Ok(Some(speed)), false, d),
    ensures
        !is_restart(d),
        d == HealthDecision::IgnoredNotWake,
{
}

/// A forced check of a degraded link makes exactly one restart request,
/// for the configured device and with the configured dwell.
pub proof fn lemma_forced_degraded_restarts(
    target: Seq<char>,
    threshold: u64,
    dwell_secs: u64,
    speed: u64,
    d: HealthDecision,
)
    requires
        speed <= threshold,
        spec_decide(target, threshold, dwell_secs, Ok(Some(speed)), true, d),
    ensures
        is_restart(d),
        d->RestartDevice_target@ == target,
        d->RestartDevice_dwell_secs == dwell_secs,
{
}

/// A reading above the threshold never restarts the device, forced or not.
pub proof fn lemma_fast_link_never_restarts(
    target: Seq<char>,
    threshold: u64,
    dwell_secs: u64,
    speed: u64,
    forced: bool,
    d: HealthDecision,
)
    requires
        speed > threshold,
        spec_decide(target, threshold, dwell_secs, Ok(Some(speed)), forced, d),
    ensures
        !is_restart(d),
        d == HealthDecision::SpeedNormal,
{
}

/// However many checks run, forced or not, while the adapter is never found,
/// each one reports the adapter missing and none restarts the device.
pub proof fn lemma_missing_adapter_never_restarts(
    target: Seq<char>,
    threshold: u64,
    dwell_secs: u64,
    forced: Seq<bool>,
    decisions: Seq<HealthDecision>,
)
    requires
        decisions.len() == forced.len(),
        forall|i: int|
            0 <= i < forced.len() ==> spec_decide(
                target,
                threshold,
                dwell_secs,
                Ok(None),
                forced[i],
                #[trigger] decisions[i],
            ),
    ensures
        forall|i: int|
            0 <= i < decisions.len() ==> #[trigger] decisions[i] == HealthDecision::AdapterNotFound
                && !is_restart(decisions[i]),
{
}

} // verus!
