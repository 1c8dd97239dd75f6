//! The service facade: the cache layer, the backend integration, the
//! lifecycle flags and the cumulative migration counters, composed behind
//! one handle, plus the decisions of the supervising loop.
//!
//! The loop itself lives in the runtime around the library: on each wake it
//! asks `poll_step` what to do, performs the backend work, and hands the
//! outcomes to `perform_hourly_update`. Every decision is verified here;
//! only the waiting and the process running stay outside.

use vstd::prelude::*;

use crate::ServiceError;
use crate::cache_manager::CacheManager;
use crate::cache_manager::CacheModel;
use crate::cache_manager::CacheStats;
use crate::clock::now_seconds;
use crate::config::ServiceConfig;
use crate::go_integration::ExecOutcome;
use crate::go_integration::GoIntegration;
use crate::go_integration::GoStats;
use crate::product::ProductData;

verus! {

/// A point-in-time snapshot of the whole service: lifecycle, counters, and
/// the statistics of both sub-components. The snapshot is composed from
/// independently kept counters, not taken transactionally.
#[derive(Debug, Clone)]
pub struct ServiceStats {
    /// Whether the supervising loop is considered running.
    pub is_running: bool,
    /// When a cycle last completed, in seconds.
    pub last_update_time: i64,
    /// Records ever handed to migration.
    pub total_processed: u64,
    /// Records the backend migrated.
    pub total_accepted: u64,
    /// Records whose migration failed or was rejected.
    pub total_denied: u64,
    /// The cache layer's statistics.
    pub cache_stats: CacheStats,
    /// The backend integration's statistics.
    pub go_stats: GoStats,
}

/// What the supervising loop should do on one wake.
#[derive(Debug, Clone, Copy, PartialEq, Eq, Structural)]
pub enum PollDecision {
    /// A stop was requested: leave the loop.
    Finish,
    /// The interval has elapsed: run one cycle.
    RunCycle,
    /// Nothing to do: sleep and poll again.
    Idle,
}

/// The abstract state of the service.
#[verifier::ext_equal]
pub ghost struct ServiceModel {
    /// The cache layer's abstract state.
    pub cache: CacheModel,
    /// The backend integration's state (it is all plain values).
    pub go: GoIntegration,
    /// Whether the supervising loop is considered running.
    pub is_running: bool,
    /// Whether a stop has been requested.
    pub should_stop: bool,
    /// When a cycle last completed, in seconds.
    pub last_update_time: int,
    /// Records ever handed to migration.
    pub processed: int,
    /// Records the backend migrated.
    pub accepted: int,
    /// Records whose migration failed or was rejected.
    pub denied: int,
    /// Whether the previous cycle failed, which shortens the next sleep.
    pub cycle_failed: bool,
    /// The configuration the service was built with.
    pub config: ServiceConfig,
}

/// The configured update interval, in seconds.
pub open spec fn interval_seconds(c: ServiceConfig) -> int {
    c.update_config.update_interval_hours * 3600
}

/// Whether a cycle is due: the configured interval has elapsed since the
/// last completed cycle.
pub open spec fn cycle_due(m: ServiceModel, now: int) -> bool {
    now - m.last_update_time >= interval_seconds(m.config)
}

/// What the supervising loop does on one wake: finish on a stop request,
/// run a cycle when one is due, idle otherwise.
pub open spec fn poll_spec(m: ServiceModel, now: int) -> PollDecision {
    if m.should_stop {
        PollDecision::Finish
    } else if cycle_due(m, now) {
        PollDecision::RunCycle
    } else {
        PollDecision::Idle
    }
}

/// How many of the migration outcomes are clean exits.
pub open spec fn count_migrated(s: Seq<ExecOutcome>) -> int
    decreases s.len(),
{
    if s.len() == 0 {
        0
    } else {
        count_migrated(s.drop_last()) + if s.last() == ExecOutcome::Exited(0) {
            1int
        } else {
            0int
        }
    }
}

/// The migrated count never exceeds the number of outcomes.
proof fn lemma_count_migrated_bounds(s: Seq<ExecOutcome>)
    ensures
        0 <= count_migrated(s) <= s.len(),
    decreases s.len(),
{
    if s.len() > 0 {
        lemma_count_migrated_bounds(s.drop_last());
    }
}

/// The service: both sub-components, the lifecycle flags, the cumulative
/// migration counters, and the configuration.
pub struct DailyUpdateServiceV2 {
    /// The cache layer.
    pub cache_manager: CacheManager,
    /// The backend integration.
    pub go_integration: GoIntegration,
    is_running: bool,
    should_stop: bool,
    last_update_time: i64,
    total_processed: u64,
    total_accepted: u64,
    total_denied: u64,
    last_cycle_failed: bool,
    config: ServiceConfig,
}

impl View for DailyUpdateServiceV2 {
    type V = ServiceModel;

    closed spec fn view(&self) -> ServiceModel {
        ServiceModel {
            cache: self.cache_manager@,
            go: self.go_integration,
            is_running: self.is_running,
            should_stop: self.should_stop,
            last_update_time: self.last_update_time as int,
            processed: self.total_processed as int,
            accepted: self.total_accepted as int,
            denied: self.total_denied as int,
            cycle_failed: self.last_cycle_failed,
            config: self.config,
        }
    }
}

impl DailyUpdateServiceV2 {
    /// The representation invariant: the cache layer is well formed and the
    /// configured intervals are small enough for the time arithmetic.
    pub closed spec fn inv(self) -> bool {
        &&& self.cache_manager.inv()
        &&& self.config.wf()
    }

    /// Creates a stopped service at the given time: fresh sub-components,
    /// zeroed counters, the last update stamped with that time.
    pub fn new_at(config: ServiceConfig, now: i64) -> (s: DailyUpdateServiceV2)
        requires
            config.wf(),
        ensures
            s.inv(),
            !s@.is_running,
            !s@.should_stop,
            s@.last_update_time == now,
            s@.processed == 0,
            s@.accepted == 0,
            s@.denied == 0,
            !s@.cycle_failed,
            s@.config == config,
            s@.cache.product == crate::cache_manager::empty_store(),
            s@.cache.admin == crate::cache_manager::empty_store(),
            s@.cache.hits == 0,
            s@.cache.misses == 0,
            s@.cache.evictions == 0,
            s@.go.go_calls == 0,
            s@.go.successful_inserts == 0,
            s@.go.failed_inserts == 0,
            !s@.go.is_initialized,
    {
        DailyUpdateServiceV2 {
            cache_manager: CacheManager::new(),
            go_integration: GoIntegration::new(),
            is_running: false,
            should_stop: false,
            last_update_time: now,
            total_processed: 0,
            total_accepted: 0,
            total_denied: 0,
            last_cycle_failed: false,
            config,
        }
    }

    /// Creates a stopped service stamped with the system clock.
    pub fn new(config: ServiceConfig) -> (s: DailyUpdateServiceV2)
        requires
            config.wf(),
        ensures
            s.inv(),
            !s@.is_running,
            !s@.should_stop,
            s@.processed == 0,
            s@.accepted == 0,
            s@.denied == 0,
            !s@.cycle_failed,
            s@.config == config,
            !s@.go.is_initialized,
    {
        let now = now_seconds();
        DailyUpdateServiceV2::new_at(config, now)
    }

    /// Brings the sub-components up: resets the cache statistics at the
    /// given time and finishes the backend setup from the two diagnostics
    /// the runtime ran. Fails, and does not start anything, when the
    /// backend setup fails.
    pub fn initialize(&mut self, now: i64, binary_ok: bool, component_ok: bool) -> (r: Result<
        (),
        ServiceError,
    >)
        requires
            old(self).inv(),
        ensures
            final(self).inv(),
            r == if binary_ok && component_ok {
                Ok::<(), ServiceError>(())
            } else {
                Err::<(), ServiceError>(ServiceError::NotInitialized)
            },
            final(self)@.cache.product == old(self)@.cache.product,
            final(self)@.cache.admin == old(self)@.cache.admin,
            final(self)@.cache.hits == 0,
            final(self)@.cache.misses == 0,
            final(self)@.cache.evictions == 0,
            final(self)@.cache.lookups == 0,
            final(self)@.cache.last_reset == now,
            final(self)@.go.is_initialized == (binary_ok && component_ok
                || old(self)@.go.is_initialized),
            final(self)@.go.go_calls == old(self)@.go.go_calls,
            final(self)@.go.successful_inserts == old(self)@.go.successful_inserts,
            final(self)@.go.failed_inserts == old(self)@.go.failed_inserts,
            final(self)@.go.batch_operations == old(self)@.go.batch_operations,
            final(self)@.is_running == old(self)@.is_running,
            final(self)@.should_stop == old(self)@.should_stop,
            final(self)@.last_update_time == old(self)@.last_update_time,
            final(self)@.processed == old(self)@.processed,
            final(self)@.accepted == old(self)@.accepted,
            final(self)@.denied == old(self)@.denied,
            final(self)@.config == old(self)@.config,
    {
        let _ = self.cache_manager.initialize(now);
        let ok = self.go_integration.initialize(binary_ok, component_ok);
        if ok {
            Ok(())
        } else {
            Err(ServiceError::NotInitialized)
        }
    }

    /// Marks the service running and clears the stop flag; a repeated start
    /// is a safe no-op. Returns whether a supervising loop should be
    /// launched.
    pub fn start(&mut self) -> (launch: bool)
        requires
            old(self).inv(),
        ensures
            final(self).inv(),
            launch == !old(self)@.is_running,
            old(self)@.is_running ==> final(self)@ == old(self)@,
            !old(self)@.is_running ==> final(self)@ == (ServiceModel {
                is_running: true,
                should_stop: false,
                ..old(self)@
            }),
    {
        if self.is_running {
            return false;
        }
        self.is_running = true;
        self.should_stop = false;
        proof {
            assert(self@ =~= (ServiceModel { is_running: true, should_stop: false, ..old(self)@ }));
        }
        true
    }

    /// Requests a stop and marks the service stopped; stopping is
    /// best-effort, so the flag is lowered whether or not the loop has
    /// acknowledged by the time the runtime's grace period ends. A stop of
    /// a stopped service is a safe no-op.
    pub fn stop(&mut self)
        requires
            old(self).inv(),
        ensures
            final(self).inv(),
            !old(self)@.is_running ==> final(self)@ == old(self)@,
            old(self)@.is_running ==> final(self)@ == (ServiceModel {
                is_running: false,
                should_stop: true,
                ..old(self)@
            }),
            !final(self)@.is_running,
    {
        if !self.is_running {
            return ;
        }
        self.should_stop = true;
        self.is_running = false;
        proof {
            assert(self@ =~= (ServiceModel { is_running: false, should_stop: true, ..old(self)@ }));
        }
    }

    /// Whether the configured interval has elapsed since the last completed
    /// cycle.
    pub fn is_time_for_hourly_update(&self, now: i64) -> (r: bool)
        requires
            self.inv(),
        ensures
            r == cycle_due(self@, now as int),
    {
        let threshold: i64 = (self.config.update_config.update_interval_hours as i64) * 3600;
        let elapsed_ok = (now as i128) - (self.last_update_time as i128) >= (threshold as i128);
        elapsed_ok
    }

    /// What the supervising loop should do now: finish on a stop request,
    /// run a cycle when one is due, idle otherwise.
    pub fn poll_step(&self, now: i64) -> (r: PollDecision)
        requires
            self.inv(),
        ensures
            r == poll_spec(self@, now as int),
    {
        if self.should_stop {
            PollDecision::Finish
        } else if self.is_time_for_hourly_update(now) {
            PollDecision::RunCycle
        } else {
            PollDecision::Idle
        }
    }

    /// How long the supervising loop should sleep before its next wake: the
    /// configured poll interval, or a one-minute backoff after a failed
    /// cycle, to avoid busy-looping on persistent failure.
    pub fn sleep_seconds(&self) -> (r: u64)
        requires
            self.inv(),
        ensures
            r == if self@.cycle_failed {
                60int
            } else {
                self@.config.update_config.check_interval_minutes * 60
            },
    {
        if self.last_cycle_failed {
            60
        } else {
            self.config.update_config.check_interval_minutes * 60
        }
    }

    /// Hands a fetch outcome through the backend integration; the rest of
    /// the service does not move.
    pub fn get_accepted_products(&mut self, exec: &ExecOutcome, records: Vec<ProductData>) -> (r:
        Result<Vec<ProductData>, ServiceError>)
        requires
            old(self).inv(),
            old(self)@.go.go_calls < u64::MAX,
        ensures
            final(self).inv(),
            final(self)@ == (ServiceModel { go: final(self)@.go, ..old(self)@ }),
            !old(self)@.go.is_initialized ==> (r matches Err(e) && e
                == ServiceError::NotInitialized) && final(self)@.go == old(self)@.go,
            old(self)@.go.is_initialized ==> {
                &&& final(self)@.go.go_calls == old(self)@.go.go_calls + 1
                &&& final(self)@.go == (GoIntegration {
                    go_calls: final(self)@.go.go_calls,
                    ..old(self)@.go
                })
                &&& match *exec {
                    ExecOutcome::Exited(code) => if code == 0 {
                        r matches Ok(v) && v == records
                    } else {
                        r matches Err(e) && e == ServiceError::BackendUnavailable
                    },
                    ExecOutcome::SpawnFailed => (r matches Err(e) && e
                        == ServiceError::BackendUnavailable),
                }
            },
    {
        let r = self.go_integration.get_accepted_products(exec, records);
        proof {
            assert(self@ =~= (ServiceModel { go: self@.go, ..old(self)@ }));
            if old(self)@.go.is_initialized {
                assert(self@.go =~= (GoIntegration { go_calls: self@.go.go_calls, ..old(self)@.go }));
            }
        }
        r
    }

    /// One cycle, from the events the runtime observed: the fetch outcome
    /// with the records it parsed, and one migration outcome per record.
    ///
    /// A failed fetch aborts the cycle: the counters, the cache and the
    /// last update time stay exactly as they were, and only the failure
    /// flag rises, so the next poll retries promptly. A completed cycle
    /// books every record (a clean exit as accepted, anything else as
    /// denied), resets the cache - statistics zeroed, admin store intact -
    /// and stamps the last update time.
    pub fn perform_hourly_update(
        &mut self,
        fetch_exec: &ExecOutcome,
        records: Vec<ProductData>,
        migration_execs: &Vec<ExecOutcome>,
        now: i64,
    ) -> (r: Result<(), ServiceError>)
        requires
            old(self).inv(),
            now >= old(self)@.last_update_time,
            migration_execs@.len() == records@.len(),
            old(self)@.processed + records@.len() <= u64::MAX,
            old(self)@.accepted + records@.len() <= u64::MAX,
            old(self)@.denied + records@.len() <= u64::MAX,
            old(self)@.go.go_calls + 1 + records@.len() <= u64::MAX,
            old(self)@.go.successful_inserts + records@.len() <= u64::MAX,
            old(self)@.go.failed_inserts + records@.len() <= u64::MAX,
        ensures
            final(self).inv(),
            final(self)@.last_update_time >= old(self)@.last_update_time,
            r is Err ==> final(self)@ == (ServiceModel {
                cycle_failed: true,
                go: final(self)@.go,
                ..old(self)@
            }),
            !old(self)@.go.is_initialized ==> (r matches Err(e) && e
                == ServiceError::NotInitialized) && final(self)@.go == old(self)@.go,
            old(self)@.go.is_initialized && !(*fetch_exec == ExecOutcome::Exited(0)) ==> (
            r matches Err(e) && e == ServiceError::BackendUnavailable) && final(self)@.go == (
            GoIntegration { go_calls: (old(self)@.go.go_calls + 1) as u64, ..old(self)@.go }),
            old(self)@.go.is_initialized && *fetch_exec == ExecOutcome::Exited(0) ==> {
                &&& r == Ok::<(), ServiceError>(())
                &&& final(self)@.processed == old(self)@.processed + records@.len()
                &&& final(self)@.accepted == old(self)@.accepted + count_migrated(migration_execs@)
                &&& final(self)@.denied == old(self)@.denied + records@.len() - count_migrated(
                    migration_execs@,
                )
                &&& final(self)@.cache == old(self)@.cache.do_reset(now as int)
                &&& final(self)@.last_update_time == now
                &&& !final(self)@.cycle_failed
                &&& final(self)@.is_running == old(self)@.is_running
                &&& final(self)@.should_stop == old(self)@.should_stop
                &&& final(self)@.config == old(self)@.config
                &&& final(self)@.go == (GoIntegration {
                    go_calls: (old(self)@.go.go_calls + 1 + records@.len()) as u64,
                    successful_inserts: (old(self)@.go.successful_inserts + count_migrated(
                        migration_execs@,
                    )) as u64,
                    failed_inserts: (old(self)@.go.failed_inserts + records@.len()
                        - count_migrated(migration_execs@)) as u64,
                    ..old(self)@.go
                })
            },
    {
        proof {
            lemma_count_migrated_bounds(migration_execs@);
        }
        let n = records.len();
        match self.go_integration.get_accepted_products(fetch_exec, records) {
            Err(e) => {
                self.last_cycle_failed = true;
                proof {
                    assert(self@ =~= (ServiceModel {
                        cycle_failed: true,
                        go: self@.go,
                        ..old(self)@
                    }));
                }
                Err(e)
            },
            Ok(approved) => {
                let ghost go_after_fetch = self.go_integration;
                let mut accepted_count: u64 = 0;
                let mut i: usize = 0;
                while i < n
                    invariant
                        n == migration_execs@.len(),
                        i <= n,
                        go_after_fetch.is_initialized,
                        go_after_fetch.go_calls + n <= u64::MAX,
                        go_after_fetch.successful_inserts + n <= u64::MAX,
                        go_after_fetch.failed_inserts + n <= u64::MAX,
                        accepted_count == count_migrated(migration_execs@.subrange(0, i as int)),
                        self.go_integration == (GoIntegration {
                            go_calls: (go_after_fetch.go_calls + i) as u64,
                            successful_inserts: (go_after_fetch.successful_inserts
                                + accepted_count) as u64,
                            failed_inserts: (go_after_fetch.failed_inserts + i
                                - accepted_count) as u64,
                            ..go_after_fetch
                        }),
                        self.cache_manager == old(self).cache_manager,
                        self.is_running == old(self).is_running,
                        self.should_stop == old(self).should_stop,
                        self.last_update_time == old(self).last_update_time,
                        self.total_processed == old(self).total_processed,
                        self.total_accepted == old(self).total_accepted,
                        self.total_denied == old(self).total_denied,
                        self.last_cycle_failed == old(self).last_cycle_failed,
                        self.config == old(self).config,
                    decreases n - i,
                {
                    proof {
                        lemma_count_migrated_bounds(migration_execs@.subrange(0, i as int));
                    }
                    let outcome = self.go_integration.migrate_product(&migration_execs[i]);
                    match outcome {
                        Ok(true) => {
                            accepted_count = accepted_count + 1;
                        },
                        _ => {},
                    }
                    proof {
                        let pre = migration_execs@.subrange(0, i as int);
                        let cur = migration_execs@.subrange(0, i + 1 as int);
                        assert(cur.drop_last() =~= pre);
                        assert(cur.last() == migration_execs@[i as int]);
                        assert(self.go_integration == (GoIntegration {
                            go_calls: (go_after_fetch.go_calls + i + 1) as u64,
                            successful_inserts: (go_after_fetch.successful_inserts
                                + count_migrated(cur)) as u64,
                            failed_inserts: (go_after_fetch.failed_inserts + (i + 1)
                                - count_migrated(cur)) as u64,
                            ..go_after_fetch
                        }));
                    }
                    i = i + 1;
                }
                proof {
                    assert(migration_execs@.subrange(0, n as int) =~= migration_execs@);
                }
                self.total_processed = self.total_processed + n as u64;
                self.total_accepted = self.total_accepted + accepted_count;
                self.total_denied = self.total_denied + (n as u64 - accepted_count);
                let _ = self.cache_manager.perform_daily_cache_reset(now);
                self.last_update_time = now;
                self.last_cycle_failed = false;
                Ok(())
            },
        }
    }

    /// Runs one cycle immediately, without asking whether one is due:
    /// exactly the cycle semantics of `perform_hourly_update`, for manual
    /// invocation.
    pub fn force_hourly_update(
        &mut self,
        fetch_exec: &ExecOutcome,
        records: Vec<ProductData>,
        migration_execs: &Vec<ExecOutcome>,
        now: i64,
    ) -> (r: Result<(), ServiceError>)
        requires
            old(self).inv(),
            now >= old(self)@.last_update_time,
            migration_execs@.len() == records@.len(),
            old(self)@.processed + records@.len() <= u64::MAX,
            old(self)@.accepted + records@.len() <= u64::MAX,
            old(self)@.denied + records@.len() <= u64::MAX,
            old(self)@.go.go_calls + 1 + records@.len() <= u64::MAX,
            old(self)@.go.successful_inserts + records@.len() <= u64::MAX,
            old(self)@.go.failed_inserts + records@.len() <= u64::MAX,
        ensures
            final(self).inv(),
            final(self)@.last_update_time >= old(self)@.last_update_time,
            r is Err ==> final(self)@ == (ServiceModel {
                cycle_failed: true,
                go: final(self)@.go,
                ..old(self)@
            }),
            old(self)@.go.is_initialized && *fetch_exec == ExecOutcome::Exited(0) ==> {
                &&& r == Ok::<(), ServiceError>(())
                &&& final(self)@.processed == old(self)@.processed + records@.len()
                &&& final(self)@.accepted == old(self)@.accepted + count_migrated(migration_execs@)
                &&& final(self)@.denied == old(self)@.denied + records@.len() - count_migrated(
                    migration_execs@,
                )
                &&& final(self)@.cache == old(self)@.cache.do_reset(now as int)
                &&& final(self)@.last_update_time == now
                &&& !final(self)@.cycle_failed
            },
    {
        self.perform_hourly_update(fetch_exec, records, migration_execs, now)
    }

    /// Snapshots the service statistics: lifecycle, counters, and both
    /// sub-components' statistics.
    pub fn get_service_stats(&self) -> (s: ServiceStats)
        requires
            self.inv(),
        ensures
            s.is_running == self@.is_running,
            s.last_update_time == self@.last_update_time,
            s.total_processed == self@.processed,
            s.total_accepted == self@.accepted,
            s.total_denied == self@.denied,
            s.cache_stats.total_entries == self@.cache.product.dom().len(),
            s.cache_stats.hit_count == self@.cache.hits,
            s.cache_stats.miss_count == self@.cache.misses,
            s.cache_stats.eviction_count == self@.cache.evictions,
            s.cache_stats.last_reset_time == self@.cache.last_reset,
            s.go_stats.go_calls == self@.go.go_calls,
            s.go_stats.successful_inserts == self@.go.successful_inserts,
            s.go_stats.failed_inserts == self@.go.failed_inserts,
            s.go_stats.is_initialized == self@.go.is_initialized,
    {
        ServiceStats {
            is_running: self.is_running,
            last_update_time: self.last_update_time,
            total_processed: self.total_processed,
            total_accepted: self.total_accepted,
            total_denied: self.total_denied,
            cache_stats: self.cache_manager.get_cache_stats(),
            go_stats: self.go_integration.get_go_stats(),
        }
    }
}

/// Law: a cycle runs on a wake exactly when no stop was requested and the
/// configured interval has elapsed since the last completed cycle; a stop
/// request always wins.
pub proof fn lemma_poll_decision(m: ServiceModel, now: int)
    ensures
        (poll_spec(m, now) == PollDecision::RunCycle) <==> (!m.should_stop && now
            - m.last_update_time >= interval_seconds(m.config)),
        m.should_stop <==> poll_spec(m, now) == PollDecision::Finish,
{
}

} // verus!
