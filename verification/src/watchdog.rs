use vstd::prelude::*;
use crate::state::ProxyMode;
use crate::helper::HelperResponse;

verus! {

/// Seconds between two health checks of the core's API.
pub const CHECK_INTERVAL_SECS: u64 = 15;

/// Extra seconds a check interval may take before the machine is taken to have slept.
pub const WAKE_TOLERANCE_SECS: u64 = 20;

/// Consecutive failed checks after which the core is restarted.
pub const FAILURE_THRESHOLD: u32 = 3;

/// Consecutive failed checks after which the tray shows the error icon.
pub const ERROR_ICON_THRESHOLD: u32 = 2;

/// The health watchdog's memory between checks.
pub struct Watchdog {
    consecutive_failures: u32,
}

/// What the watchdog does after a health check.
#[derive(PartialEq, Eq, Structural, Clone, Copy, Debug)]
pub enum HealthAction {
    /// Nothing to do.
    Nothing,
    /// The core is healthy again: clear the error flag and redraw the tray.
    ClearError,
    /// Set the error flag and redraw the tray.
    RaiseError,
    /// Restart the core.
    Recover,
    /// Set the error flag, redraw the tray, then restart the core.
    RaiseErrorAndRecover,
}

/// How the watchdog restarts the core.
#[derive(PartialEq, Eq, Structural, Clone, Copy, Debug)]
pub enum RecoveryPlan {
    /// Restart the core through the privileged helper (transparent proxy mode).
    RestartViaHelper,
    /// Transparent proxy mode, but the helper is not running: nothing can be done.
    Skip,
    /// Stop and start the core as a child process.
    RestartSidecar,
}

/// How the application recovers after the machine woke from sleep.
#[derive(PartialEq, Eq, Structural, Clone, Copy, Debug)]
pub enum WakePlan {
    /// Restart the core through the helper; the error flag follows the outcome.
    RestartViaHelper,
    /// The helper is not running: set the error flag.
    HelperMissing,
    /// Re-apply the system proxy, restart the core; the error flag follows the outcome.
    ReapplyProxyAndRestartSidecar,
    /// Restart the core; the error flag stays as it is.
    RestartSidecar,
}

impl Watchdog {
    /// The count of consecutive failed checks.
    pub closed spec fn failures(&self) -> nat {
        self.consecutive_failures as nat
    }

    /// The count stays below the restart threshold.
    #[verifier::type_invariant]
    spec fn count_below_threshold(&self) -> bool {
        self.consecutive_failures < FAILURE_THRESHOLD
    }

    /// A watchdog that has seen no failure.
    pub fn new() -> (r: Watchdog)
        ensures
            r.failures() == 0,
    {
        Watchdog { consecutive_failures: 0 }
    }

    /// The count of consecutive failed checks.
    pub fn consecutive_failures(&self) -> (r: u32)
        ensures
            r == self.failures(),
            r < FAILURE_THRESHOLD,
    {
        proof {
            use_type_invariant(self);
        }
        self.consecutive_failures
    }

    /// The machine woke from sleep: the recovery runs and the count starts over.
    pub fn observe_wake(&mut self)
        ensures
            final(self).failures() == 0,
    {
        self.consecutive_failures = 0;
    }

    /// Record a health check, given whether the error flag is set; say what to do.
    pub fn observe_health(&mut self, healthy: bool, error_flag: bool) -> (r: HealthAction)
        ensures
            final(self).failures() < FAILURE_THRESHOLD,
            final(self).failures() == next_failures(old(self).failures(), healthy),
            (r == HealthAction::Recover || r == HealthAction::RaiseErrorAndRecover) == recovers(
                old(self).failures(),
                healthy,
            ),
            healthy ==> final(self).failures() == 0 && r == (if old(self).failures() > 0 || error_flag {
                HealthAction::ClearError
            } else {
                HealthAction::Nothing
            }),
            !healthy && old(self).failures() + 1 < FAILURE_THRESHOLD ==> final(self).failures()
                == old(self).failures() + 1 && r == (if old(self).failures() + 1 >= ERROR_ICON_THRESHOLD
                && !error_flag {
                HealthAction::RaiseError
            } else {
                HealthAction::Nothing
            }),
            !healthy && old(self).failures() + 1 >= FAILURE_THRESHOLD ==> final(self).failures() == 0
                && r == (if !error_flag {
                HealthAction::RaiseErrorAndRecover
            } else {
                HealthAction::Recover
            }),
    {
        proof {
            use_type_invariant(&*self);
        }
        if healthy {
            let was_failing = self.consecutive_failures > 0;
            self.consecutive_failures = 0;
            if was_failing || error_flag {
                return HealthAction::ClearError;
            }
            return HealthAction::Nothing;
        }
        let count = self.consecutive_failures + 1;
        let raise = count >= ERROR_ICON_THRESHOLD && !error_flag;
        if count < FAILURE_THRESHOLD {
            self.consecutive_failures = count;
            if raise {
                HealthAction::RaiseError
            } else {
                HealthAction::Nothing
            }
        } else {
            self.consecutive_failures = 0;
            if raise {
                HealthAction::RaiseErrorAndRecover
            } else {
                HealthAction::Recover
            }
        }
    }
}

/// Whether a check interval of `elapsed_nanos` means the machine slept: it took
/// more than the interval plus the tolerance.
pub fn woke_from_sleep(elapsed_nanos: u64) -> (r: bool)
    ensures
        r == (elapsed_nanos > (CHECK_INTERVAL_SECS + WAKE_TOLERANCE_SECS) * 1_000_000_000),
{
    elapsed_nanos > (CHECK_INTERVAL_SECS + WAKE_TOLERANCE_SECS) * 1_000_000_000
}

/// How to restart the core once the failure threshold is reached.
pub fn recovery_plan(mode: ProxyMode, helper_running: bool) -> (r: RecoveryPlan)
    ensures
        r == (if mode == ProxyMode::Tun {
            if helper_running {
                RecoveryPlan::RestartViaHelper
            } else {
                RecoveryPlan::Skip
            }
        } else {
            RecoveryPlan::RestartSidecar
        }),
{
    match mode {
        ProxyMode::Tun => if helper_running {
            RecoveryPlan::RestartViaHelper
        } else {
            RecoveryPlan::Skip
        },
        _ => RecoveryPlan::RestartSidecar,
    }
}

/// How to recover after the machine woke from sleep.
pub fn wake_plan(mode: ProxyMode, helper_running: bool) -> (r: WakePlan)
    ensures
        r == match mode {
            ProxyMode::Tun => if helper_running {
                WakePlan::RestartViaHelper
            } else {
                WakePlan::HelperMissing
            },
            ProxyMode::SystemProxy => WakePlan::ReapplyProxyAndRestartSidecar,
            ProxyMode::Off => WakePlan::RestartSidecar,
        },
{
    match mode {
        ProxyMode::Tun => if helper_running {
            WakePlan::RestartViaHelper
        } else {
            WakePlan::HelperMissing
        },
        ProxyMode::SystemProxy => WakePlan::ReapplyProxyAndRestartSidecar,
        ProxyMode::Off => WakePlan::RestartSidecar,
    }
}

/// The error flag after recovering from sleep with `plan`: `restarted` tells
/// whether the core came back (when the plan restarts it and its outcome counts),
/// `current` is the flag before.
pub fn wake_error_flag(plan: WakePlan, restarted: bool, current: bool) -> (r: bool)
    ensures
        r == match plan {
            WakePlan::RestartViaHelper => !restarted,
            WakePlan::HelperMissing => true,
            WakePlan::ReapplyProxyAndRestartSidecar => !restarted,
            WakePlan::RestartSidecar => current,
        },
{
    match plan {
        WakePlan::RestartViaHelper => !restarted,
        WakePlan::HelperMissing => true,
        WakePlan::ReapplyProxyAndRestartSidecar => !restarted,
        WakePlan::RestartSidecar => current,
    }
}

/// Whether the helper started the core: it answered, with code 0.
pub fn helper_started(reply: &Result<HelperResponse, String>) -> (r: bool)
    ensures
        r == (reply is Ok && reply->Ok_0.code == 0),
{
    match reply {
        Ok(resp) => resp.code == 0,
        Err(_) => false,
    }
}


/// The count of consecutive failed checks after one more check.
pub open spec fn next_failures(f: nat, healthy: bool) -> nat {
    if healthy {
        0
    } else if f + 1 >= FAILURE_THRESHOLD {
        0
    } else {
        (f + 1) as nat
    }
}

/// Whether a check restarts the core.
pub open spec fn recovers(f: nat, healthy: bool) -> bool {
    !healthy && f + 1 >= FAILURE_THRESHOLD
}

/// The count after a run of checks from a fresh watchdog (`true` = healthy).
pub open spec fn failures_after(checks: Seq<bool>) -> nat
    decreases checks.len(),
{
    if checks.len() == 0 {
        0
    } else {
        next_failures(failures_after(checks.drop_last()), checks.last())
    }
}

/// How many checks at the end of a run failed in a row.
pub open spec fn trailing_failures(checks: Seq<bool>) -> nat
    decreases checks.len(),
{
    if checks.len() == 0 || checks.last() {
        0
    } else {
        trailing_failures(checks.drop_last()) + 1
    }
}

/// Law of the watchdog: after any run of checks from a fresh watchdog, its count
/// is the number of trailing failed checks modulo the threshold; so the core is
/// restarted exactly on every third failed check in a row, and a healthy check
/// starts the count over.
pub proof fn law_watchdog_counts_trailing_failures(checks: Seq<bool>)
    ensures
        failures_after(checks) == trailing_failures(checks) % (FAILURE_THRESHOLD as nat),
        checks.len() > 0 ==> (recovers(failures_after(checks.drop_last()), checks.last()) <==> (
        !checks.last() && trailing_failures(checks) % (FAILURE_THRESHOLD as nat) == 0)),
    decreases checks.len(),
{
    if checks.len() > 0 {
        law_watchdog_counts_trailing_failures(checks.drop_last());
        let t = trailing_failures(checks.drop_last());
        assert(t % 3 < 3);
        assert((t % 3 + 1 >= 3) ==> (t + 1) % 3 == 0);
        assert((t % 3 + 1 < 3) ==> (t + 1) % 3 == t % 3 + 1);
    }
}

} // verus!
