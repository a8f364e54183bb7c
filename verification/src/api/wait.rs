//! Waiting for asynchronous operations: each poll's observation is turned into the next
//! step of the wait. The caller performs the polls, measures the elapsed time and sleeps
//! between polls.

use crate::error::{VultrError, VultrResult};
use crate::models::block_storage::{BlockStorage, BlockStorageStatus};
use crate::models::instance::{Instance, InstanceStatus, PowerStatus, ServerStatus};
use crate::models::snapshot::{Snapshot, SnapshotStatus};
use vstd::prelude::*;

verus! {

/// Default wait timeout in seconds.
pub const DEFAULT_TIMEOUT: u64 = 600;

/// Default poll interval in seconds.
pub const DEFAULT_POLL_INTERVAL: u64 = 5;

/// Wait options for async operations.
#[derive(Debug, Clone)]
pub struct WaitOptions {
    /// Maximum time to wait (seconds)
    pub timeout: u64,
    /// Time between status checks (seconds)
    pub poll_interval: u64,
    /// Whether to show progress
    pub show_progress: bool,
}

impl Default for WaitOptions {
    fn default() -> (r: Self)
        ensures
            r.timeout == DEFAULT_TIMEOUT,
            r.poll_interval == DEFAULT_POLL_INTERVAL,
            r.show_progress,
    {
        WaitOptions { timeout: DEFAULT_TIMEOUT, poll_interval: DEFAULT_POLL_INTERVAL, show_progress: true }
    }
}

/// The next step of a wait.
#[derive(Debug)]
pub enum WaitStep<T> {
    /// The wait is over with this result.
    Finished(VultrResult<T>),
    /// Sleep for the poll interval, then poll again.
    PollAgain,
}

/// The error that ends a wait whose time ran out.
pub open spec fn timeout_error(options: WaitOptions) -> VultrError {
    VultrError::Timeout { seconds: options.timeout }
}

/// More time has passed than the wait allows.
pub open spec fn timed_out(elapsed_secs: u64, options: WaitOptions) -> bool {
    elapsed_secs > options.timeout
}

/// The step of a wait for a state: a failed poll ends the wait with its error, a polled
/// value in the state ends it successfully, and otherwise the wait times out or goes on.
pub open spec fn state_wait_step<T>(polled: VultrResult<T>, reached: bool, elapsed_secs: u64, options: WaitOptions) -> WaitStep<T> {
    match polled {
        Err(e) => WaitStep::Finished(Err(e)),
        Ok(v) => if reached {
            WaitStep::Finished(Ok(v))
        } else if timed_out(elapsed_secs, options) {
            WaitStep::Finished(Err(timeout_error(options)))
        } else {
            WaitStep::PollAgain
        },
    }
}

/// The step of the wait for an instance to be ready.
pub open spec fn instance_ready_step(polled: VultrResult<Instance>, elapsed_secs: u64, options: WaitOptions) -> WaitStep<Instance> {
    state_wait_step(polled, polled matches Ok(i) && i.ready(), elapsed_secs, options)
}

/// The step of the wait for an instance to be stopped.
pub open spec fn instance_stopped_step(polled: VultrResult<Instance>, elapsed_secs: u64, options: WaitOptions) -> WaitStep<Instance> {
    state_wait_step(polled, polled matches Ok(i) && i.power_status == Some(PowerStatus::Stopped), elapsed_secs, options)
}

/// The step of the wait for block storage to be active.
pub open spec fn block_storage_active_step(polled: VultrResult<BlockStorage>, elapsed_secs: u64, options: WaitOptions) -> WaitStep<BlockStorage> {
    state_wait_step(polled, polled matches Ok(b) && b.status == Some(BlockStorageStatus::Active), elapsed_secs, options)
}

fn timeout_step<T>(elapsed_secs: u64, options: &WaitOptions) -> (r: WaitStep<T>)
    ensures
        r == (if timed_out(elapsed_secs, *options) {
            WaitStep::Finished(Err(timeout_error(*options)))
        } else {
            WaitStep::<T>::PollAgain
        }),
{
    if elapsed_secs > options.timeout {
        WaitStep::Finished(Err(VultrError::Timeout { seconds: options.timeout }))
    } else {
        WaitStep::PollAgain
    }
}

/// One poll of the wait for an instance to be ready.
pub fn wait_for_instance_ready(polled: VultrResult<Instance>, elapsed_secs: u64, options: &WaitOptions) -> (r: WaitStep<Instance>)
    ensures
        r == instance_ready_step(polled, elapsed_secs, *options),
        timed_out(elapsed_secs, *options) ==> r is Finished,
{
    match polled {
        Err(e) => WaitStep::Finished(Err(e)),
        Ok(instance) => {
            if instance.is_ready() {
                WaitStep::Finished(Ok(instance))
            } else {
                timeout_step(elapsed_secs, options)
            }
        },
    }
}

/// One poll of the wait for an instance to be stopped.
pub fn wait_for_instance_stopped(polled: VultrResult<Instance>, elapsed_secs: u64, options: &WaitOptions) -> (r: WaitStep<Instance>)
    ensures
        r == instance_stopped_step(polled, elapsed_secs, *options),
        timed_out(elapsed_secs, *options) ==> r is Finished,
{
    match polled {
        Err(e) => WaitStep::Finished(Err(e)),
        Ok(instance) => {
            let stopped = match instance.power_status {
                Some(PowerStatus::Stopped) => true,
                _ => false,
            };
            if stopped {
                WaitStep::Finished(Ok(instance))
            } else {
                timeout_step(elapsed_secs, options)
            }
        },
    }
}

/// The step of the wait for a snapshot: like a state wait, except that a snapshot that
/// turns out deleted ends the wait with a not-found error for it.
pub open spec fn snapshot_wait_step(polled: VultrResult<Snapshot>, snapshot_id: Seq<char>, elapsed_secs: u64, options: WaitOptions, r: WaitStep<Snapshot>) -> bool {
    match polled {
        Ok(s) => if s.status == Some(SnapshotStatus::Complete) {
            r == WaitStep::Finished(Ok(s))
        } else if s.status == Some(SnapshotStatus::Deleted) {
            r matches WaitStep::Finished(Err(VultrError::NotFound { resource_type, id }))
                && resource_type@ == "snapshot"@ && id@ == snapshot_id
        } else if timed_out(elapsed_secs, options) {
            r == WaitStep::<Snapshot>::Finished(Err(timeout_error(options)))
        } else {
            r is PollAgain
        },
        Err(e) => r == WaitStep::<Snapshot>::Finished(Err(e)),
    }
}

/// One poll of the wait for a snapshot to be complete.
pub fn wait_for_snapshot_complete(polled: VultrResult<Snapshot>, snapshot_id: &str, elapsed_secs: u64, options: &WaitOptions) -> (r: WaitStep<Snapshot>)
    ensures
        snapshot_wait_step(polled, snapshot_id@, elapsed_secs, *options, r),
        timed_out(elapsed_secs, *options) ==> r is Finished,
{
    match polled {
        Err(e) => WaitStep::Finished(Err(e)),
        Ok(snapshot) => {
            if snapshot.is_ready() {
                WaitStep::Finished(Ok(snapshot))
            } else {
                let deleted = match snapshot.status {
                    Some(SnapshotStatus::Deleted) => true,
                    _ => false,
                };
                if deleted {
                    WaitStep::Finished(Err(VultrError::not_found("snapshot", snapshot_id)))
                } else {
                    timeout_step(elapsed_secs, options)
                }
            }
        },
    }
}

/// One poll of the wait for block storage to be active.
pub fn wait_for_block_storage_active(polled: VultrResult<BlockStorage>, elapsed_secs: u64, options: &WaitOptions) -> (r: WaitStep<BlockStorage>)
    ensures
        r == block_storage_active_step(polled, elapsed_secs, *options),
        timed_out(elapsed_secs, *options) ==> r is Finished,
{
    match polled {
        Err(e) => WaitStep::Finished(Err(e)),
        Ok(block) => {
            let active = match block.status {
                Some(BlockStorageStatus::Active) => true,
                _ => false,
            };
            if active {
                WaitStep::Finished(Ok(block))
            } else {
                timeout_step(elapsed_secs, options)
            }
        },
    }
}

/// A lookup failure that shows the resource is gone: a 404 answer or a not-found error.
pub open spec fn shows_gone(e: VultrError) -> bool {
    e matches VultrError::ApiError { status, .. } && status == 404 || e is NotFound
}

/// The step of a deletion check: a lookup that shows the resource gone ends the check
/// successfully, any other failed lookup ends it with its error, and a resource that still
/// exists makes the check time out or go on.
pub open spec fn deletion_step(probe: VultrResult<()>, elapsed_secs: u64, options: WaitOptions) -> WaitStep<()> {
    match probe {
        Ok(_) => if timed_out(elapsed_secs, options) {
            WaitStep::Finished(Err(timeout_error(options)))
        } else {
            WaitStep::PollAgain
        },
        Err(e) => if shows_gone(e) {
            WaitStep::Finished(Ok(()))
        } else {
            WaitStep::Finished(Err(e))
        },
    }
}

fn is_gone(e: &VultrError) -> (r: bool)
    ensures
        r == shows_gone(*e),
{
    match e {
        VultrError::ApiError { status, .. } => *status == 404,
        VultrError::NotFound { .. } => true,
        _ => false,
    }
}

/// One poll of a deletion check, given the outcome of looking the resource up. This is the
/// check behind the deletion of instances, block storage, bare metal servers, SSH keys,
/// startup scripts, firewall groups and firewall rules.
pub fn verify_deleted(probe: VultrResult<()>, elapsed_secs: u64, options: &WaitOptions) -> (r: WaitStep<()>)
    ensures
        r == deletion_step(probe, elapsed_secs, *options),
        timed_out(elapsed_secs, *options) ==> r is Finished,
{
    match probe {
        Ok(_) => timeout_step(elapsed_secs, options),
        Err(e) => {
            if is_gone(&e) {
                WaitStep::Finished(Ok(()))
            } else {
                WaitStep::Finished(Err(e))
            }
        },
    }
}

/// One poll of the check that a snapshot was deleted: a snapshot marked deleted, or a
/// lookup that shows it gone, ends the check successfully.
pub fn verify_snapshot_deleted(polled: VultrResult<Snapshot>, elapsed_secs: u64, options: &WaitOptions) -> (r: WaitStep<()>)
    ensures
        match polled {
            Ok(s) => if s.status == Some(SnapshotStatus::Deleted) {
                r == WaitStep::Finished(Ok(()))
            } else {
                r == deletion_step(Ok(()), elapsed_secs, *options)
            },
            Err(e) => r == deletion_step(Err(e), elapsed_secs, *options),
        },
        timed_out(elapsed_secs, *options) ==> r is Finished,
{
    match polled {
        Ok(snapshot) => {
            let deleted = match snapshot.status {
                Some(SnapshotStatus::Deleted) => true,
                _ => false,
            };
            if deleted {
                WaitStep::Finished(Ok(()))
            } else {
                verify_deleted(Ok(()), elapsed_secs, options)
            }
        },
        Err(e) => verify_deleted(Err(e), elapsed_secs, options),
    }
}

/// A deletion check reports success only when the lookup showed the resource gone, and it
/// never reports success while the resource can still be looked up.
pub proof fn deletion_is_confirmed_only_when_gone(probe: VultrResult<()>, elapsed_secs: u64, options: WaitOptions)
    ensures
        deletion_step(probe, elapsed_secs, options) matches WaitStep::Finished(Ok(_)) ==> (probe matches Err(e) && shows_gone(e)),
        probe is Ok ==> !(deletion_step(probe, elapsed_secs, options) matches WaitStep::Finished(Ok(_))),
{
}

/// The wait for an instance to be ready ends successfully exactly when the polled instance is
/// active, running and its server reports `ok`, and then with that instance; a failed poll
/// ends it with its error; otherwise it times out once more time than allowed has passed, and
/// polls again before.
pub proof fn instance_ready_wait_law(polled: VultrResult<Instance>, elapsed_secs: u64, options: WaitOptions)
    ensures
        instance_ready_step(polled, elapsed_secs, options) matches WaitStep::Finished(Ok(j)) ==> polled == Ok::<Instance, VultrError>(j)
            && j.status == Some(InstanceStatus::Active) && j.power_status == Some(PowerStatus::Running)
            && j.server_status == Some(ServerStatus::StatusOk),
        polled matches Ok(i) ==> i.status == Some(InstanceStatus::Active) && i.power_status == Some(PowerStatus::Running)
            && i.server_status == Some(ServerStatus::StatusOk) ==> instance_ready_step(polled, elapsed_secs, options)
            == WaitStep::Finished(Ok(i)),
        polled matches Err(e) ==> instance_ready_step(polled, elapsed_secs, options) == WaitStep::<Instance>::Finished(Err(e)),
        polled matches Ok(i) ==> !(i.status == Some(InstanceStatus::Active) && i.power_status == Some(PowerStatus::Running)
            && i.server_status == Some(ServerStatus::StatusOk)) ==> instance_ready_step(polled, elapsed_secs, options) == (
        if elapsed_secs > options.timeout {
            WaitStep::<Instance>::Finished(Err(VultrError::Timeout { seconds: options.timeout }))
        } else {
            WaitStep::<Instance>::PollAgain
        }),
{
}

/// The wait for an instance to stop ends successfully exactly when the polled instance's
/// power status is `stopped`, and then with that instance; a failed poll ends it with its
/// error; otherwise it times out once more time than allowed has passed, and polls again
/// before.
pub proof fn instance_stopped_wait_law(polled: VultrResult<Instance>, elapsed_secs: u64, options: WaitOptions)
    ensures
        instance_stopped_step(polled, elapsed_secs, options) matches WaitStep::Finished(Ok(j)) ==> polled == Ok::<Instance, VultrError>(j)
            && j.power_status == Some(PowerStatus::Stopped),
        polled matches Ok(i) ==> i.power_status == Some(PowerStatus::Stopped) ==> instance_stopped_step(polled, elapsed_secs, options)
            == WaitStep::Finished(Ok(i)),
        polled matches Err(e) ==> instance_stopped_step(polled, elapsed_secs, options) == WaitStep::<Instance>::Finished(Err(e)),
        polled matches Ok(i) ==> i.power_status != Some(PowerStatus::Stopped) ==> instance_stopped_step(polled, elapsed_secs, options) == (
        if elapsed_secs > options.timeout {
            WaitStep::<Instance>::Finished(Err(VultrError::Timeout { seconds: options.timeout }))
        } else {
            WaitStep::<Instance>::PollAgain
        }),
{
}

/// The wait for block storage ends successfully exactly when the polled volume is active, and
/// then with that volume; a failed poll ends it with its error; otherwise it times out once
/// more time than allowed has passed, and polls again before.
pub proof fn block_storage_wait_law(polled: VultrResult<BlockStorage>, elapsed_secs: u64, options: WaitOptions)
    ensures
        block_storage_active_step(polled, elapsed_secs, options) matches WaitStep::Finished(Ok(j)) ==> polled == Ok::<BlockStorage, VultrError>(j)
            && j.status == Some(BlockStorageStatus::Active),
        polled matches Ok(b) ==> b.status == Some(BlockStorageStatus::Active) ==> block_storage_active_step(polled, elapsed_secs, options)
            == WaitStep::Finished(Ok(b)),
        polled matches Err(e) ==> block_storage_active_step(polled, elapsed_secs, options) == WaitStep::<BlockStorage>::Finished(Err(e)),
        polled matches Ok(b) ==> b.status != Some(BlockStorageStatus::Active) ==> block_storage_active_step(polled, elapsed_secs, options) == (
        if elapsed_secs > options.timeout {
            WaitStep::<BlockStorage>::Finished(Err(VultrError::Timeout { seconds: options.timeout }))
        } else {
            WaitStep::<BlockStorage>::PollAgain
        }),
{
}

/// The wait for a snapshot succeeds only with the polled snapshot, and only when it is
/// complete; a complete snapshot always ends it so; a snapshot marked deleted ends it with a
/// not-found error for that snapshot; a failed poll ends it with its error; a pending
/// snapshot times out once more time than allowed has passed, and is polled again before.
pub proof fn snapshot_wait_law(polled: VultrResult<Snapshot>, snapshot_id: Seq<char>, elapsed_secs: u64, options: WaitOptions, r: WaitStep<Snapshot>)
    requires
        snapshot_wait_step(polled, snapshot_id, elapsed_secs, options, r),
    ensures
        r matches WaitStep::Finished(Ok(s)) ==> polled == Ok::<Snapshot, VultrError>(s) && s.status == Some(SnapshotStatus::Complete),
        polled matches Ok(s) ==> s.status == Some(SnapshotStatus::Complete) ==> r == WaitStep::Finished(Ok(s)),
        polled matches Ok(s) ==> s.status == Some(SnapshotStatus::Deleted) ==> (r matches WaitStep::Finished(Err(VultrError::NotFound { resource_type, id }))
            && resource_type@ == "snapshot"@ && id@ == snapshot_id),
        polled matches Err(e) ==> r == WaitStep::<Snapshot>::Finished(Err(e)),
        polled matches Ok(s) ==> s.status != Some(SnapshotStatus::Complete) && s.status != Some(SnapshotStatus::Deleted) ==> r == (
        if elapsed_secs > options.timeout {
            WaitStep::<Snapshot>::Finished(Err(VultrError::Timeout { seconds: options.timeout }))
        } else {
            WaitStep::<Snapshot>::PollAgain
        }),
{
}

/// A deletion check succeeds exactly when the lookup answers 404 or not found; any other
/// failed lookup ends it with that error; while the resource can still be looked up it times
/// out once more time than allowed has passed, and looks again before.
pub proof fn deletion_check_law(probe: VultrResult<()>, elapsed_secs: u64, options: WaitOptions)
    ensures
        probe matches Err(e) ==> ((e matches VultrError::ApiError { status, .. } && status == 404) || e is NotFound ==> deletion_step(probe, elapsed_secs, options) == WaitStep::<()>::Finished(Ok(()))),
        probe matches Err(e) ==> (!((e matches VultrError::ApiError { status, .. } && status == 404) || e is NotFound) ==> deletion_step(probe, elapsed_secs, options) == WaitStep::<()>::Finished(Err(e))),
        probe is Ok ==> deletion_step(probe, elapsed_secs, options) == (if elapsed_secs > options.timeout {
            WaitStep::<()>::Finished(Err(VultrError::Timeout { seconds: options.timeout }))
        } else {
            WaitStep::<()>::PollAgain
        }),
{
}

} // verus!
