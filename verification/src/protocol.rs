//! The two-stage launch protocol as a state machine: which stage a launch
//! is in, which action leaves that stage, and which stage each outcome
//! leads to. The machine is realized across two cooperating processes —
//! an outer stage that isolates and re-executes, and an inner stage that
//! pivots, mounts and runs the application — because namespace isolation
//! only takes full effect for processes created after the unshare calls.

use vstd::prelude::*;

verus! {

/// The stages of a launch, in the order a fully successful launch passes
/// through them. `Aborted` is the terminal stage of any failed attempt.
#[derive(Clone, Copy, Debug, PartialEq, Eq, Structural)]
pub enum LaunchStage {
    /// The caller has provided root path, executable and arguments.
    Requested,
    /// The outer stage has unshared the configured namespaces.
    NamespacesIsolated,
    /// A cgroup has been created, limits applied and the outer process
    /// assigned, so the child inherits membership.
    CgroupAttached,
    /// The outer stage has spawned a new image of itself and blocks on it.
    Reexecuted,
    /// The inner stage has changed its root and working directory to the
    /// supplied root path.
    RootPivoted,
    /// The inner stage has mounted the virtual filesystems under the new
    /// root.
    VirtualFilesystemsMounted,
    /// The target application runs; the inner stage blocks until it exits.
    AppRunning,
    /// The inner stage has attempted to unmount the virtual filesystems.
    Unmounted,
    /// The launch is over; the target's exit status propagates outward.
    Terminated,
    /// A stage failed and the attempt was abandoned.
    Aborted,
}

/// The action a launch performs to leave a stage. Unmounting and status
/// propagation are best-effort: their failures are swallowed, so they
/// cannot abort the launch.
#[derive(Clone, Copy, Debug, PartialEq, Eq, Structural)]
pub enum LaunchAction {
    /// Unshare the configured namespaces, in declaration order.
    IsolateNamespaces,
    /// Create the cgroup, apply limits, assign the outer process.
    AttachCgroup,
    /// Spawn a new process image of the same program, marked as the inner
    /// stage, and block on it.
    SpawnInner,
    /// Change root and working directory to the supplied root path.
    PivotRoot,
    /// Mount the process-information and ephemeral filesystems.
    MountVirtualFilesystems,
    /// Exec the target application and block until it exits.
    RunApp,
    /// Unmount the virtual filesystems, in reverse order of mounting.
    UnmountVirtualFilesystems,
    /// Adopt and propagate the target's exit status.
    PropagateStatus,
}

impl LaunchStage {
    /// Whether a launch in this stage is over.
    pub open spec fn spec_is_terminal(self) -> bool {
        self is Terminated || self is Aborted
    }

    /// The action that leaves this stage, given whether resource limits
    /// were requested; None for a terminal stage. The cgroup stage exists
    /// only when limits were requested.
    pub open spec fn spec_action(self, limits_requested: bool) -> Option<LaunchAction> {
        match self {
            LaunchStage::Requested => Some(LaunchAction::IsolateNamespaces),
            LaunchStage::NamespacesIsolated => if limits_requested {
                Some(LaunchAction::AttachCgroup)
            } else {
                Some(LaunchAction::SpawnInner)
            },
            LaunchStage::CgroupAttached => Some(LaunchAction::SpawnInner),
            LaunchStage::Reexecuted => Some(LaunchAction::PivotRoot),
            LaunchStage::RootPivoted => Some(LaunchAction::MountVirtualFilesystems),
            LaunchStage::VirtualFilesystemsMounted => Some(LaunchAction::RunApp),
            LaunchStage::AppRunning => Some(LaunchAction::UnmountVirtualFilesystems),
            LaunchStage::Unmounted => Some(LaunchAction::PropagateStatus),
            LaunchStage::Terminated => None,
            LaunchStage::Aborted => None,
        }
    }

    /// The stage after this one, given whether the leaving action
    /// succeeded. A failed unmount or status propagation is swallowed and
    /// the launch still terminates; any other failure aborts the attempt,
    /// with the effects of earlier stages left in place.
    pub open spec fn spec_next(self, ok: bool, limits_requested: bool) -> LaunchStage {
        match self {
            LaunchStage::Requested => if ok {
                LaunchStage::NamespacesIsolated
            } else {
                LaunchStage::Aborted
            },
            LaunchStage::NamespacesIsolated => if !ok {
                LaunchStage::Aborted
            } else if limits_requested {
                LaunchStage::CgroupAttached
            } else {
                LaunchStage::Reexecuted
            },
            LaunchStage::CgroupAttached => if ok {
                LaunchStage::Reexecuted
            } else {
                LaunchStage::Aborted
            },
            LaunchStage::Reexecuted => if ok {
                LaunchStage::RootPivoted
            } else {
                LaunchStage::Aborted
            },
            LaunchStage::RootPivoted => if ok {
                LaunchStage::VirtualFilesystemsMounted
            } else {
                LaunchStage::Aborted
            },
            LaunchStage::VirtualFilesystemsMounted => if ok {
                LaunchStage::AppRunning
            } else {
                LaunchStage::Aborted
            },
            LaunchStage::AppRunning => LaunchStage::Unmounted,
            LaunchStage::Unmounted => LaunchStage::Terminated,
            LaunchStage::Terminated => LaunchStage::Terminated,
            LaunchStage::Aborted => LaunchStage::Aborted,
        }
    }

    /// Whether a launch in this stage is over.
    pub fn is_terminal(&self) -> (r: bool)
        ensures
            r == self.spec_is_terminal(),
    {
        match self {
            LaunchStage::Terminated => true,
            LaunchStage::Aborted => true,
            _ => false,
        }
    }

    /// The action that leaves this stage, or None for a terminal stage.
    pub fn action(&self, limits_requested: bool) -> (r: Option<LaunchAction>)
        ensures
            r == self.spec_action(limits_requested),
    {
        match self {
            LaunchStage::Requested => Some(LaunchAction::IsolateNamespaces),
            LaunchStage::NamespacesIsolated => if limits_requested {
                Some(LaunchAction::AttachCgroup)
            } else {
                Some(LaunchAction::SpawnInner)
            },
            LaunchStage::CgroupAttached => Some(LaunchAction::SpawnInner),
            LaunchStage::Reexecuted => Some(LaunchAction::PivotRoot),
            LaunchStage::RootPivoted => Some(LaunchAction::MountVirtualFilesystems),
            LaunchStage::VirtualFilesystemsMounted => Some(LaunchAction::RunApp),
            LaunchStage::AppRunning => Some(LaunchAction::UnmountVirtualFilesystems),
            LaunchStage::Unmounted => Some(LaunchAction::PropagateStatus),
            LaunchStage::Terminated => None,
            LaunchStage::Aborted => None,
        }
    }

    /// Advance the launch by the outcome of the action that left this
    /// stage.
    pub fn advance(&self, ok: bool, limits_requested: bool) -> (r: LaunchStage)
        ensures
            r == self.spec_next(ok, limits_requested),
    {
        match self {
            LaunchStage::Requested => if ok {
                LaunchStage::NamespacesIsolated
            } else {
                LaunchStage::Aborted
            },
            LaunchStage::NamespacesIsolated => if !ok {
                LaunchStage::Aborted
            } else if limits_requested {
                LaunchStage::CgroupAttached
            } else {
                LaunchStage::Reexecuted
            },
            LaunchStage::CgroupAttached => if ok {
                LaunchStage::Reexecuted
            } else {
                LaunchStage::Aborted
            },
            LaunchStage::Reexecuted => if ok {
                LaunchStage::RootPivoted
            } else {
                LaunchStage::Aborted
            },
            LaunchStage::RootPivoted => if ok {
                LaunchStage::VirtualFilesystemsMounted
            } else {
                LaunchStage::Aborted
            },
            LaunchStage::VirtualFilesystemsMounted => if ok {
                LaunchStage::AppRunning
            } else {
                LaunchStage::Aborted
            },
            LaunchStage::AppRunning => LaunchStage::Unmounted,
            LaunchStage::Unmounted => LaunchStage::Terminated,
            LaunchStage::Terminated => LaunchStage::Terminated,
            LaunchStage::Aborted => LaunchStage::Aborted,
        }
    }
}

/// The stage a launch reaches from `s` after the outcomes in `events`,
/// taken in order.
pub open spec fn spec_run(s: LaunchStage, events: Seq<bool>, limits_requested: bool) -> LaunchStage
    decreases events.len(),
{
    if events.len() == 0 {
        s
    } else {
        spec_run(s.spec_next(events[0], limits_requested), events.drop_first(), limits_requested)
    }
}

/// A launch whose every action succeeds terminates: with limits requested
/// it passes through all eight actions, without them through seven, and
/// ends in the terminated stage either way.
pub proof fn lemma_all_ok_launch_terminates()
    ensures
        spec_run(
            LaunchStage::Requested,
            seq![true, true, true, true, true, true, true, true],
            true,
        ) == LaunchStage::Terminated,
        spec_run(
            LaunchStage::Requested,
            seq![true, true, true, true, true, true, true],
            false,
        ) == LaunchStage::Terminated,
{
    reveal_with_fuel(spec_run, 9);
}

/// An aborted launch stays aborted: no later event revives it.
pub proof fn lemma_abort_is_terminal(events: Seq<bool>, limits_requested: bool)
    ensures
        spec_run(LaunchStage::Aborted, events, limits_requested) == LaunchStage::Aborted,
    decreases events.len(),
{
    if events.len() > 0 {
        lemma_abort_is_terminal(events.drop_first(), limits_requested);
    }
}

/// Mounting is entered only from a successful root pivot: a launch whose
/// pivot failed is aborted at once and, since an abort is terminal, never
/// reaches the mounting stage.
pub proof fn lemma_mount_only_after_pivot(
    s: LaunchStage,
    ok: bool,
    limits_requested: bool,
)
    ensures
        s.spec_next(ok, limits_requested) == LaunchStage::VirtualFilesystemsMounted ==> (s
            == LaunchStage::RootPivoted && ok),
        LaunchStage::Reexecuted.spec_next(false, limits_requested) == LaunchStage::Aborted,
{
}

} // verus!
