//! Default settings values and well-known file names. Durations are
//! milliseconds.

use vstd::prelude::*;

verus! {

/// Default GPIO pin to monitor (GPIO24, physical pin 18 on a Raspberry Pi).
pub const DEFAULT_PIN: u8 = 24;

/// Default poll interval between pin reads: one second.
pub const DEFAULT_POLL_INTERVAL: u64 = 1_000;

/// Default duration the pin must hold a level before it qualifies as a valid
/// change: ten seconds.
pub const DEFAULT_HOLD: u64 = 10_000;

/// Default minimum time between notifications: six hours.
pub const DEFAULT_TIME_BETWEEN_BATSIGNS: u64 = 21_600_000;

/// Default time to wait before retrying a failed notification: five minutes.
pub const DEFAULT_TIME_BETWEEN_BATSIGNS_RETRY: u64 = 300_000;

/// Default message template for an alarm notification.
pub const ALARM_TEMPLATE: &'static str = "Subject: PellX Alarm\nPin {pin_number} has been HIGH for {since}.";

/// Default message template for a restored notification.
pub const RESTORED_TEMPLATE: &'static str = "Subject: PellX Restored\nPin {pin_number} is LOW again after {since}.";

/// Program identifier used for configuration-path resolution.
pub const PROGRAM_ARG0: &'static str = "pellx_monitor";

/// Configuration file name without its extension.
pub const CONFIG_FILENAME_SANS_TOML: &'static str = "config";

/// Configuration file name.
pub const CONFIG_FILENAME: &'static str = "config.toml";

/// Name of the file listing the notification URLs, one per line.
pub const BATSIGNS_FILENAME: &'static str = "batsigns";

/// Name of the alarm message template file.
pub const ALARM_TEMPLATE_FILENAME: &'static str = "alarm.template";

/// Name of the restored message template file.
pub const RESTORED_TEMPLATE_FILENAME: &'static str = "restored.template";

} // verus!
