//! Load-time configuration of the service: cache sizing and expiry, the
//! backend executable, and the update schedule.

use vstd::prelude::*;

verus! {

/// Cache configuration: capacity and expiry windows.
#[derive(Debug, Clone)]
pub struct CacheConfig {
    /// Maximum cache capacity, in entries.
    pub max_capacity: u64,
    /// Maximum age before unconditional entry expiry, in seconds.
    pub ttl_seconds: u64,
    /// Maximum time since last access before expiry, in seconds.
    pub idle_seconds: u64,
}

/// Backend integration configuration.
#[derive(Debug, Clone)]
pub struct GoConfig {
    /// Path of the backend executable.
    pub binary_path: String,
    /// Working directory the backend runs in.
    pub working_directory: String,
    /// Timeout for one backend call, in seconds.
    pub command_timeout: u64,
}

/// Update schedule configuration.
#[derive(Debug, Clone)]
pub struct UpdateConfig {
    /// How long one cycle's results stay fresh before the next is due.
    pub update_interval_hours: u64,
    /// How often the supervising loop wakes to see whether a cycle is due.
    pub check_interval_minutes: u64,
    /// Whether the supervising loop runs at all.
    pub enable_automatic_updates: bool,
}

/// Service configuration: one value per sub-component, plus the data root.
#[derive(Debug, Clone)]
pub struct ServiceConfig {
    /// Base directory for data storage.
    pub base_directory: String,
    /// Cache configuration.
    pub cache_config: CacheConfig,
    /// Backend integration configuration.
    pub go_config: GoConfig,
    /// Update schedule configuration.
    pub update_config: UpdateConfig,
}

impl UpdateConfig {
    /// The intervals must stay small enough that converting them to seconds
    /// cannot overflow the arithmetic of the scheduler.
    pub open spec fn wf(self) -> bool {
        &&& self.update_interval_hours <= 0x1000_0000
        &&& self.check_interval_minutes <= 0x1000_0000
    }
}

impl ServiceConfig {
    /// A configuration is well formed when its schedule is.
    pub open spec fn wf(self) -> bool {
        self.update_config.wf()
    }
}

impl Default for CacheConfig {
    /// One hour of life, half an hour of idleness, ten thousand entries.
    fn default() -> (c: CacheConfig)
        ensures
            c.max_capacity == 10000,
            c.ttl_seconds == 3600,
            c.idle_seconds == 1800,
    {
        CacheConfig { max_capacity: 10000, ttl_seconds: 3600, idle_seconds: 1800 }
    }
}

impl Default for GoConfig {
    /// The backend executable under its conventional relative path.
    fn default() -> (c: GoConfig)
        ensures
            c.binary_path@ == "go-supabase/main"@,
            c.working_directory@ == "go-supabase"@,
            c.command_timeout == 30,
    {
        GoConfig {
            binary_path: "go-supabase/main".to_owned(),
            working_directory: "go-supabase".to_owned(),
            command_timeout: 30,
        }
    }
}

impl Default for UpdateConfig {
    /// Hourly cycles, a five-minute poll, automatic updates on.
    fn default() -> (c: UpdateConfig)
        ensures
            c.update_interval_hours == 1,
            c.check_interval_minutes == 5,
            c.enable_automatic_updates,
            c.wf(),
    {
        UpdateConfig {
            update_interval_hours: 1,
            check_interval_minutes: 5,
            enable_automatic_updates: true,
        }
    }
}

impl Default for ServiceConfig {
    /// The default sub-configurations under the conventional data root.
    fn default() -> (c: ServiceConfig)
        ensures
            c.base_directory@ == "./data/daily-update"@,
            c.cache_config == (CacheConfig { max_capacity: 10000, ttl_seconds: 3600, idle_seconds: 1800 }),
            c.go_config.command_timeout == 30,
            c.update_config == (UpdateConfig {
                update_interval_hours: 1,
                check_interval_minutes: 5,
                enable_automatic_updates: true,
            }),
            c.wf(),
    {
        ServiceConfig {
            base_directory: "./data/daily-update".to_owned(),
            cache_config: Default::default(),
            go_config: Default::default(),
            update_config: Default::default(),
        }
    }
}

} // verus!
