//! What the service is started with, and where it finds its files.

pub mod time;

use vstd::prelude::*;
use crate::config::time::TimeConfig;
use crate::logging::LogLevel;

verus! {

/// The configuration file.
pub const GRUB_FILE_PATH: &'static str = "/etc/default/grub";

/// The directory of the configuration file.
pub const GRUB_ROOT_PATH: &'static str = "/etc/default";

/// The directory of the generated menu and of the environment file.
pub const GRUB_BOOT_PATH: &'static str = "/boot/grub2";

/// The generated menu.
pub const GRUB_CFG_PATH: &'static str = "/boot/grub2/grub.cfg";

/// The environment file, which names the saved entry.
pub const GRUB_ENV_PATH: &'static str = "/boot/grub2/grubenv";

/// The snapshot store.
pub const DATABASE_PATH: &'static str = "/var/lib/lastlog/lastlog2.db";

/// What the service is started with.
#[derive(Debug)]
pub struct ConfigArgs {
    /// Use the session bus rather than the system bus.
    pub session: bool,
    /// The log level, which overrides the one given by the environment.
    pub log_level: Option<LogLevel>,
    /// How long the service may stay idle before it ends.
    pub idle_time: Option<TimeConfig>,
}

impl ConfigArgs {
    /// The time in milliseconds that the service may stay idle, if it was
    /// given one.
    pub fn allowed_idle_time(&self) -> (millis: Option<u64>)
        ensures
            millis == match self.idle_time {
                Some(time) => Some(time.milliseconds),
                None => None,
            },
    {
        match self.idle_time {
            Some(time) => Some(time.milliseconds),
            None => None,
        }
    }
}

} // verus!
