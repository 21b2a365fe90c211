use vstd::prelude::*;

verus! {

/// Threshold, in bits per second, at or below which a link counts as degraded.
pub const DEFAULT_LINK_SPEED_THRESHOLD_BPS: u64 = 100_000_000;

/// Seconds to wait after a wake signal before the forced check.
pub const DEFAULT_WAIT_AFTER_WAKE_SECS: u64 = 15;

/// Seconds a device stays disabled before it is enabled again.
pub const DEFAULT_RESTART_DELAY_SECS: u64 = 3;

/// Process-wide settings of the monitor, read-only once built.
#[derive(Debug, Clone)]
pub struct AppConfig {
    pub service_name: String,
    pub service_display_name: String,
    pub target_adapter_name: String,
    pub link_speed_threshold_bps: u64,
    pub wait_after_wake_secs: u64,
    pub restart_delay_secs: u64,
}

/// The built-in settings used when no configuration could be loaded.
pub open spec fn is_default_config(c: AppConfig) -> bool {
    &&& c.service_name@ == "RelinkNetworkService"@
    &&& c.service_display_name@ == "Relink Network Monitor Service"@
    &&& c.target_adapter_name@ == "Realtek Gaming USB 2.5GbE Family Controller"@
    &&& c.link_speed_threshold_bps == DEFAULT_LINK_SPEED_THRESHOLD_BPS
    &&& c.wait_after_wake_secs == DEFAULT_WAIT_AFTER_WAKE_SECS
    &&& c.restart_delay_secs == DEFAULT_RESTART_DELAY_SECS
}

impl Default for AppConfig {
    fn default() -> (c: AppConfig)
        ensures
            is_default_config(c),
    {
        AppConfig {
            service_name: String::from_str("RelinkNetworkService"),
            service_display_name: String::from_str("Relink Network Monitor Service"),
            target_adapter_name: String::from_str("Realtek Gaming USB 2.5GbE Family Controller"),
            link_speed_threshold_bps: DEFAULT_LINK_SPEED_THRESHOLD_BPS,
            wait_after_wake_secs: DEFAULT_WAIT_AFTER_WAKE_SECS,
            restart_delay_secs: DEFAULT_RESTART_DELAY_SECS,
        }
    }
}

impl AppConfig {
    /// Fills the process-wide configuration slot once: with the loaded
    /// settings when there are any, otherwise with the built-in ones.
    /// A slot that is already filled keeps its value.
    pub fn init(slot: &mut Option<AppConfig>, loaded: Option<AppConfig>)
        ensures
            old(slot).is_some() ==> *final(slot) == *old(slot),
            old(slot).is_none() && loaded.is_some() ==> *final(slot) == loaded,
            old(slot).is_none() && loaded.is_none() ==> final(slot).is_some()
                && is_default_config(final(slot).unwrap()),
    {
        if slot.is_none() {
            let config = match loaded {
                Some(c) => c,
                None => AppConfig::default(),
            };
            *slot = Some(config);
        }
    }

    /// The configuration held by a filled slot.
    pub fn global(slot: &Option<AppConfig>) -> (c: &AppConfig)
        requires
            slot.is_some(),
        ensures
            *c == slot.unwrap(),
    {
        match slot {
            Some(c) => c,
            None => unreached(),
        }
    }
}

} // verus!
