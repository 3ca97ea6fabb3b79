//! The start-up policy of the connection pool. Faulty settings end the
//! start: a connection target that cannot be read, a warm-up larger than the
//! pool. A warm-up does not: it tries its acquisitions, counts, and ends with
//! a report, whatever the backing store did.

use crate::settings::{AppSettings, PgSettings, WARM_POOL_LIMIT};
use crate::store::MAX_TIME_TO_LIVE_SECS;
use vstd::prelude::*;

verus! {

/// Whether a text names a connection target: a connection URL or a string
/// of `key=value` pairs that `tokio_postgres` accepts.
pub uninterp spec fn valid_pg_target(target: Seq<char>) -> bool;

/// `str::parse` to a `tokio_postgres::Config`: whether the text is a
/// connection target that the driver can read.
#[verifier::external_body]
fn is_pg_target(target: &str) -> (valid: bool)
    ensures
        valid == valid_pg_target(target@),
{
    target.parse::<tokio_postgres::Config>().is_ok()
}

/// A fault of the settings that keeps the service from starting.
#[derive(Debug, Clone, Copy, PartialEq, Eq, Structural)]
pub enum StartError {
    /// The connection target of the backing store cannot be read.
    InvalidTarget,
    /// The pool's settings are not well-formed.
    WarmPool,
    /// The cache's time-to-live is above `MAX_TIME_TO_LIVE_SECS`.
    TimeToLive,
}

/// The fault that keeps a service with these settings from starting, given
/// whether its connection target can be read, or `None` where it may start.
pub open spec fn start_fault(target_valid: bool, settings: &AppSettings) -> Option<StartError> {
    if !target_valid {
        Some(StartError::InvalidTarget)
    } else if !settings.pg_settings.well_formed() {
        Some(StartError::WarmPool)
    } else if settings.cache_settings.expiration_time > MAX_TIME_TO_LIVE_SECS {
        Some(StartError::TimeToLive)
    } else {
        None
    }
}

/// Decides whether the service may start, for a connection target that is
/// known to be readable or not.
pub fn start_check(target_valid: bool, settings: &AppSettings) -> (fault: Result<(), StartError>)
    ensures
        fault is Ok <==> start_fault(target_valid, settings) is None,
        fault matches Err(e) ==> start_fault(target_valid, settings) == Some(e),
{
    let pg = &settings.pg_settings;
    if !target_valid {
        Err(StartError::InvalidTarget)
    } else if pg.warm_pool_size > pg.max_pool_size || (pg.warm_pool && pg.warm_pool_size
        > WARM_POOL_LIMIT) {
        Err(StartError::WarmPool)
    } else if settings.cache_settings.expiration_time > MAX_TIME_TO_LIVE_SECS {
        Err(StartError::TimeToLive)
    } else {
        Ok(())
    }
}

/// Decides whether the service may start with these settings. Only a fault
/// found here ends the start; nothing after it does.
pub fn check_start(settings: &AppSettings) -> (fault: Result<(), StartError>)
    ensures
        fault is Ok <==> start_fault(valid_pg_target(settings.pg_settings.url@), settings)
            is None,
        fault matches Err(e) ==> start_fault(
            valid_pg_target(settings.pg_settings.url@),
            settings,
        ) == Some(e),
{
    start_check(is_pg_target(settings.pg_settings.url.as_str()), settings)
}

/// What a pool is built with: its size and its time budgets, in seconds,
/// each of which runs on its own.
#[derive(Debug, Clone, Copy, PartialEq, Eq, Structural)]
pub struct PoolPlan {
    /// The most connections that are handed out at a time.
    pub max_size: usize,
    /// How long a caller waits for a free connection.
    pub wait_timeout: u64,
    /// How long opening a new connection may take.
    pub create_timeout: u64,
    /// How long checking a returned connection may take.
    pub recycle_timeout: u64,
    /// How long the driver waits for the store to answer a connect.
    pub connect_timeout: u64,
}

/// The plan of the pool that the settings ask for.
pub fn pool_plan(pg: &PgSettings) -> (plan: PoolPlan)
    ensures
        plan == (PoolPlan {
            max_size: pg.max_pool_size,
            wait_timeout: pg.wait_timeout,
            create_timeout: pg.new_connection_timeout,
            recycle_timeout: pg.recycle_timeout,
            connect_timeout: pg.conn_timeout,
        }),
{
    PoolPlan {
        max_size: pg.max_pool_size,
        wait_timeout: pg.wait_timeout,
        create_timeout: pg.new_connection_timeout,
        recycle_timeout: pg.recycle_timeout,
        connect_timeout: pg.conn_timeout,
    }
}

/// The number of acquisitions that a warm-up makes: none where it is
/// switched off, else the smaller of the pool's size and the size asked for.
pub open spec fn spec_warm_target(pg: &PgSettings) -> usize {
    if !pg.warm_pool {
        0
    } else if pg.max_pool_size <= pg.warm_pool_size {
        pg.max_pool_size
    } else {
        pg.warm_pool_size
    }
}

/// How a warm-up ended.
#[derive(Debug, Clone, Copy, PartialEq, Eq, Structural)]
pub enum WarmReport {
    /// The warm-up is switched off: nothing was tried.
    Skipped,
    /// No acquisition succeeded.
    Failed { attempts: usize },
    /// `ok` of the `attempts` acquisitions succeeded.
    Warmed { ok: usize, attempts: usize },
}

/// A warm-up under way: between two steps the caller tries one acquisition
/// and hands back how it went.
#[derive(Debug, Clone, Copy, PartialEq, Eq, Structural)]
pub struct WarmUp {
    pub enabled: bool,
    pub target: usize,
    pub attempted: usize,
    pub succeeded: usize,
}

impl WarmUp {
    pub open spec fn well_formed(&self) -> bool {
        &&& self.succeeded <= self.attempted <= self.target
        &&& !self.enabled ==> self.target == 0
    }

    /// The warm-up that stands at the start for the given settings.
    pub open spec fn spec_begin(pg: &PgSettings) -> WarmUp {
        WarmUp { enabled: pg.warm_pool, target: spec_warm_target(pg), attempted: 0, succeeded: 0 }
    }

    /// Whether another acquisition is due.
    pub open spec fn spec_more(&self) -> bool {
        self.attempted < self.target
    }

    /// The warm-up after one more acquisition, which succeeded or not.
    pub open spec fn recorded(self, acquired: bool) -> WarmUp {
        WarmUp {
            enabled: self.enabled,
            target: self.target,
            attempted: (self.attempted + 1) as usize,
            succeeded: if acquired {
                (self.succeeded + 1) as usize
            } else {
                self.succeeded
            },
        }
    }

    /// The warm-up after acquisitions with the given outcomes, in turn, as
    /// long as one is due.
    pub open spec fn after(self, outcomes: Seq<bool>) -> WarmUp
        decreases outcomes.len(),
    {
        if outcomes.len() == 0 || !self.spec_more() {
            self
        } else {
            self.recorded(outcomes[0]).after(outcomes.skip(1))
        }
    }

    /// What the warm-up reports as it stands.
    pub open spec fn spec_report(&self) -> WarmReport {
        if !self.enabled {
            WarmReport::Skipped
        } else if self.succeeded == 0 {
            WarmReport::Failed { attempts: self.target }
        } else {
            WarmReport::Warmed { ok: self.succeeded, attempts: self.target }
        }
    }

    pub fn begin(pg: &PgSettings) -> (warm_up: WarmUp)
        ensures
            warm_up == WarmUp::spec_begin(pg),
            warm_up.well_formed(),
    {
        let target = if !pg.warm_pool {
            0
        } else if pg.max_pool_size <= pg.warm_pool_size {
            pg.max_pool_size
        } else {
            pg.warm_pool_size
        };
        WarmUp { enabled: pg.warm_pool, target, attempted: 0, succeeded: 0 }
    }

    pub fn more(&self) -> (due: bool)
        ensures
            due == self.spec_more(),
    {
        self.attempted < self.target
    }

    /// Counts one acquisition.
    pub fn record(&mut self, acquired: bool)
        requires
            old(self).well_formed(),
            old(self).spec_more(),
        ensures
            *final(self) == old(self).recorded(acquired),
            final(self).well_formed(),
    {
        self.attempted = self.attempted + 1;
        if acquired {
            self.succeeded = self.succeeded + 1;
        }
    }

    pub fn report(&self) -> (report: WarmReport)
        ensures
            report == self.spec_report(),
    {
        if !self.enabled {
            WarmReport::Skipped
        } else if self.succeeded == 0 {
            WarmReport::Failed { attempts: self.target }
        } else {
            WarmReport::Warmed { ok: self.succeeded, attempts: self.target }
        }
    }
}

/// A warm-up stays within its bounds whatever the acquisitions do: it never
/// tries more than its target, and counts no more successes than tries.
pub proof fn law_warm_up_is_bounded(start: WarmUp, outcomes: Seq<bool>)
    requires
        start.well_formed(),
    ensures
        start.after(outcomes).well_formed(),
        start.after(outcomes).target == start.target,
        start.after(outcomes).enabled == start.enabled,
        start.after(outcomes).attempted <= start.attempted + outcomes.len(),
    decreases outcomes.len(),
{
    if outcomes.len() != 0 && start.spec_more() {
        law_warm_up_is_bounded(start.recorded(outcomes[0]), outcomes.skip(1));
    }
}

/// With the backing store out of reach every acquisition fails, and the
/// warm-up still ends: with no success counted, and with the report that
/// says so.
pub proof fn law_unreachable_store_warms_nothing(pg: &PgSettings, outcomes: Seq<bool>)
    requires
        forall|i: int| 0 <= i < outcomes.len() ==> !outcomes[i],
    ensures
        WarmUp::spec_begin(pg).after(outcomes).succeeded == 0,
        pg.warm_pool ==> WarmUp::spec_begin(pg).after(outcomes).spec_report() == (
        WarmReport::Failed { attempts: spec_warm_target(pg) }),
        !pg.warm_pool ==> WarmUp::spec_begin(pg).after(outcomes).spec_report()
            == WarmReport::Skipped,
{
    lemma_failures_count_nothing(WarmUp::spec_begin(pg), outcomes);
    law_warm_up_is_bounded(WarmUp::spec_begin(pg), outcomes);
}

proof fn lemma_failures_count_nothing(start: WarmUp, outcomes: Seq<bool>)
    requires
        start.well_formed(),
        forall|i: int| 0 <= i < outcomes.len() ==> !outcomes[i],
    ensures
        start.after(outcomes).succeeded == start.succeeded,
    decreases outcomes.len(),
{
    if outcomes.len() != 0 && start.spec_more() {
        lemma_failures_count_nothing(start.recorded(outcomes[0]), outcomes.skip(1));
    }
}

} // verus!
