//! The decisions of the async runtime: its configuration, the admission of tasks to a
//! bounded pool, and the steps of a graceful shutdown. The caller holds the task
//! counters and the runtime itself.
use crate::error::Error;
use crate::text::{decimal, decimal_text};
use vstd::prelude::*;
use vstd::string::StringExecFns;

verus! {

/// Configuration for the async runtime.
#[derive(Debug, Clone)]
pub struct RuntimeConfig {
    /// Number of worker threads.
    pub worker_threads: usize,
    /// Maximum number of blocking threads.
    pub max_blocking_threads: usize,
    /// Thread name prefix.
    pub thread_name_prefix: String,
    /// Stack size of each thread, in bytes.
    pub stack_size: usize,
}

/// Calls `num_cpus::get`, the number of logical CPUs available, which depends on the
/// machine; num_cpus documents it as at least 1.
#[verifier::external_body]
fn available_cpus() -> (r: usize)
    ensures
        r >= 1,
{
    num_cpus::get()
}

impl Default for RuntimeConfig {
    /// One worker per available CPU, 512 blocking threads, `takobull-worker` threads
    /// with 2 MiB stacks.
    fn default() -> (r: Self)
        ensures
            r.worker_threads >= 1,
            r.max_blocking_threads == 512,
            r.thread_name_prefix@ == "takobull-worker"@,
            r.stack_size == 2 * 1024 * 1024,
    {
        RuntimeConfig {
            worker_threads: available_cpus(),
            max_blocking_threads: 512,
            thread_name_prefix: "takobull-worker".to_owned(),
            stack_size: 2 * 1024 * 1024,
        }
    }
}

/// Whether a pool with `active` running tasks and capacity `max_concurrent` takes another.
pub fn can_accept_task(active: usize, max_concurrent: usize) -> (r: bool)
    ensures
        r == (active < max_concurrent),
{
    active < max_concurrent
}

/// The message of the error for a full pool.
pub open spec fn capacity_message(active: nat, max_concurrent: nat) -> Seq<char> {
    "Task pool at capacity: "@ + decimal(active) + "/"@ + decimal(max_concurrent)
}

/// Whether a pool with `active` running tasks and capacity `max_concurrent` admits one more.
pub open spec fn admits(active: nat, max_concurrent: nat) -> bool {
    active < max_concurrent
}

/// Admits a task to a pool, or refuses it with the runtime error for a full pool.
pub fn admit_task(active: usize, max_concurrent: usize) -> (r: Result<(), Error>)
    ensures
        admits(active as nat, max_concurrent as nat) ==> r is Ok,
        !admits(active as nat, max_concurrent as nat) ==> (r matches Err(Error::Runtime(m)) && m@ == capacity_message(
            active as nat,
            max_concurrent as nat,
        )),
{
    if can_accept_task(active, max_concurrent) {
        Ok(())
    } else {
        let mut m = "Task pool at capacity: ".to_owned();
        m.append(decimal_text(active as u64).as_str());
        m.append("/");
        m.append(decimal_text(max_concurrent as u64).as_str());
        Err(Error::Runtime(m))
    }
}

/// A pool never runs more tasks than its capacity: a task is admitted only when the
/// count with it stays within the capacity.
pub proof fn law_capacity_respected(active: nat, max_concurrent: nat)
    ensures
        admits(active, max_concurrent) ==> active + 1 <= max_concurrent,
        active >= max_concurrent ==> !admits(active, max_concurrent),
{
}

/// A shutdown completes exactly when no task is active.
pub proof fn law_shutdown_completes_when_idle(active: nat, timeout_passed: bool, r: ShutdownStep)
    requires
        shutdown_outcome(active, timeout_passed, r),
    ensures
        r is Completed <==> active == 0,
{
}

/// How a call of shutdown begins.
#[derive(Debug, PartialEq, Eq, Structural)]
pub enum ShutdownStart {
    /// A shutdown was already under way: the call succeeds at once.
    AlreadyShutDown,
    /// This call begins the shutdown: signal the tasks and wait for them.
    Begin,
}

/// The start of a call of shutdown, given whether the runtime was already marked as
/// shut down when the call marked it. Shutting down is idempotent: a call made once a
/// shutdown has begun succeeds at once and does nothing more.
pub fn shutdown_start(already_shut_down: bool) -> (r: ShutdownStart)
    ensures
        already_shut_down ==> r == ShutdownStart::AlreadyShutDown,
        !already_shut_down ==> r == ShutdownStart::Begin,
{
    if already_shut_down {
        ShutdownStart::AlreadyShutDown
    } else {
        ShutdownStart::Begin
    }
}

/// What a shutdown does next.
#[derive(Debug)]
pub enum ShutdownStep {
    /// All tasks are done: the shutdown has completed.
    Completed,
    /// Wait a little and look again.
    Wait,
    /// The timeout passed with tasks still running.
    TimedOut(Error),
}

/// The message of the error for a shutdown that timed out.
pub open spec fn timeout_message(active: nat) -> Seq<char> {
    "Graceful shutdown timeout: "@ + decimal(active) + " tasks still active"@
}

/// The step for `active` tasks: completed when none is active, else the timeout error
/// once the timeout has passed, else wait.
pub open spec fn shutdown_outcome(active: nat, timeout_passed: bool, r: ShutdownStep) -> bool {
    &&& active == 0 ==> r is Completed
    &&& active != 0 && timeout_passed ==> (r matches ShutdownStep::TimedOut(Error::Runtime(m)) && m@
        == timeout_message(active))
    &&& active != 0 && !timeout_passed ==> r is Wait
}

/// One step of a graceful shutdown, given the number of active tasks and whether the
/// timeout has passed: it completes once no task is active, and otherwise fails after
/// the timeout or waits.
pub fn shutdown_step(active: usize, timeout_passed: bool) -> (r: ShutdownStep)
    ensures
        shutdown_outcome(active as nat, timeout_passed, r),
{
    if active == 0 {
        ShutdownStep::Completed
    } else if timeout_passed {
        let mut m = "Graceful shutdown timeout: ".to_owned();
        m.append(decimal_text(active as u64).as_str());
        m.append(" tasks still active");
        ShutdownStep::TimedOut(Error::Runtime(m))
    } else {
        ShutdownStep::Wait
    }
}

} // verus!
