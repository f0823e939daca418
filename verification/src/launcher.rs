//! Container launcher: the outer stage isolates namespaces, optionally
//! attaches a cgroup and re-executes the program as the inner stage; the
//! inner stage pivots the root, mounts the virtual filesystems, hands back
//! the command of the target application, and unmounts on the way out.
//! Spawning and waiting on processes is left to the surrounding program,
//! which performs each returned command plan and reports its outcome.

use vstd::prelude::*;
use vstd::string::StringExecFns;
use crate::cgroup::Cgroup;
use crate::cgroup::CgroupError;
use crate::cgroup::ResourceLimits;
use crate::namespace::IsolationError;
use crate::namespace::NamespaceConfig;
use crate::namespace::setup_namespaces;
use crate::opts::RunOpts;
use crate::protocol::LaunchStage;
use crate::sys;

verus! {

/// A mount the inner stage makes under the new root.
#[derive(Clone, Copy, Debug, PartialEq, Eq, Structural)]
pub enum MountPoint {
    /// The process-information filesystem at /proc.
    Proc,
    /// The ephemeral memory-backed filesystem at /tmp.
    Tmp,
}

impl MountPoint {
    /// Where this filesystem is mounted, relative to the new root.
    pub open spec fn spec_target(self) -> Seq<char> {
        match self {
            MountPoint::Proc => "/proc"@,
            MountPoint::Tmp => "/tmp"@,
        }
    }

    /// The filesystem type mounted there.
    pub open spec fn spec_fstype(self) -> Seq<char> {
        match self {
            MountPoint::Proc => "proc"@,
            MountPoint::Tmp => "tmpfs"@,
        }
    }

    /// Where this filesystem is mounted.
    pub fn target(&self) -> (r: &'static str)
        ensures
            r@ == self.spec_target(),
    {
        match self {
            MountPoint::Proc => "/proc",
            MountPoint::Tmp => "/tmp",
        }
    }

    /// The filesystem type mounted there.
    pub fn fstype(&self) -> (r: &'static str)
        ensures
            r@ == self.spec_fstype(),
    {
        match self {
            MountPoint::Proc => "proc",
            MountPoint::Tmp => "tmpfs",
        }
    }
}

/// A launch attempt aborted, with enough context to identify the failing
/// stage and the OS error behind it.
#[derive(Clone, Copy, Debug, PartialEq, Eq)]
pub enum LaunchError {
    /// A namespace unshare call was rejected.
    Isolation(IsolationError),
    /// Setting the container hostname was rejected.
    Hostname(i32),
    /// Creating, limiting or joining the launch's cgroup failed.
    CgroupSetup(CgroupError),
    /// Changing the root or working directory to the supplied root failed.
    RootPivot(i32),
    /// Mounting a virtual filesystem under the new root failed.
    Mount(MountPoint, i32),
}

impl LaunchError {
    /// The stage of the launch protocol whose entry this error aborted.
    pub open spec fn spec_stage(self) -> LaunchStage {
        match self {
            LaunchError::Isolation(_) => LaunchStage::NamespacesIsolated,
            LaunchError::Hostname(_) => LaunchStage::NamespacesIsolated,
            LaunchError::CgroupSetup(_) => LaunchStage::CgroupAttached,
            LaunchError::RootPivot(_) => LaunchStage::RootPivoted,
            LaunchError::Mount(_, _) => LaunchStage::VirtualFilesystemsMounted,
        }
    }

    /// The stage of the launch protocol whose entry this error aborted.
    pub fn stage(&self) -> (r: LaunchStage)
        ensures
            r == self.spec_stage(),
    {
        match self {
            LaunchError::Isolation(_) => LaunchStage::NamespacesIsolated,
            LaunchError::Hostname(_) => LaunchStage::NamespacesIsolated,
            LaunchError::CgroupSetup(_) => LaunchStage::CgroupAttached,
            LaunchError::RootPivot(_) => LaunchStage::RootPivoted,
            LaunchError::Mount(_, _) => LaunchStage::VirtualFilesystemsMounted,
        }
    }
}

/// A process the surrounding program is to spawn: the program path, an
/// optional replacement for the conventional zeroth argument, the argument
/// list, and an optional value for the command-search-path variable of the
/// child's environment.
#[derive(Debug)]
pub struct CommandPlan {
    pub program: String,
    pub arg_zero: Option<String>,
    pub args: Vec<String>,
    pub path_env: Option<String>,
}

/// The plan that re-invokes the running program as the inner stage: the
/// kernel's own alias for the current executable, marked by the zeroth
/// argument and the inner-stage subcommand, carrying the launch request
/// across the process boundary, with a minimal command search path.
pub open spec fn spec_is_reexec_plan(p: CommandPlan, opts: RunOpts) -> bool {
    &&& p.program@ == "/proc/self/exe"@
    &&& p.arg_zero matches Some(z) && z@ == "init"@
    &&& p.path_env matches Some(e) && e@ == "/bin"@
    &&& p.args@.len() == 4 + opts.arguments@.len()
    &&& p.args@[0]@ == "start"@
    &&& p.args@[1]@ == "--fsroot"@
    &&& p.args@[2]@ == opts.fsroot@
    &&& p.args@[3]@ == opts.app@
    &&& forall|i: int|
        0 <= i < opts.arguments@.len() ==> p.args@[4 + i]@ == opts.arguments@[i]@
}

/// The plan that runs the target application: its path and arguments,
/// unchanged, in the environment the inner stage already has.
pub open spec fn spec_is_app_plan(p: CommandPlan, opts: RunOpts) -> bool {
    &&& p.program@ == opts.app@
    &&& p.arg_zero is None
    &&& p.path_env is None
    &&& p.args@.len() == opts.arguments@.len()
    &&& forall|i: int| 0 <= i < opts.arguments@.len() ==> p.args@[i]@ == opts.arguments@[i]@
}

/// Append clones of every argument to `args`.
fn push_arguments(args: &mut Vec<String>, arguments: &Vec<String>)
    ensures
        final(args)@.len() == old(args)@.len() + arguments@.len(),
        forall|i: int| 0 <= i < old(args)@.len() ==> final(args)@[i] == old(args)@[i],
        forall|i: int|
            0 <= i < arguments@.len() ==> final(args)@[old(args)@.len() + i]@ == arguments@[i]@,
{
    let base = args.len();
    let mut i: usize = 0;
    while i < arguments.len()
        invariant
            i <= arguments@.len(),
            base == old(args)@.len(),
            args@.len() == base + i,
            forall|j: int| 0 <= j < base ==> args@[j] == old(args)@[j],
            forall|j: int| 0 <= j < i ==> args@[base + j]@ == arguments@[j]@,
        decreases arguments@.len() - i,
    {
        args.push(arguments[i].clone());
        i = i + 1;
    }
}

/// Build the command that re-invokes the running program as the inner
/// stage, passing the launch request across the process boundary.
pub fn reexec_command(opts: &RunOpts) -> (r: CommandPlan)
    ensures
        spec_is_reexec_plan(r, *opts),
{
    let mut args: Vec<String> = Vec::new();
    args.push(String::from_str("start"));
    args.push(String::from_str("--fsroot"));
    args.push(opts.fsroot.clone());
    args.push(opts.app.clone());
    push_arguments(&mut args, &opts.arguments);
    CommandPlan {
        program: String::from_str("/proc/self/exe"),
        arg_zero: Some(String::from_str("init")),
        args,
        path_env: Some(String::from_str("/bin")),
    }
}

/// Build the command that runs the target application with its arguments.
pub fn app_command(opts: &RunOpts) -> (r: CommandPlan)
    ensures
        spec_is_app_plan(r, *opts),
{
    let mut args: Vec<String> = Vec::new();
    push_arguments(&mut args, &opts.arguments);
    CommandPlan {
        program: opts.app.clone(),
        arg_zero: None,
        args,
        path_env: None,
    }
}

/// The outer stage, up to the re-exec: unshare the configured namespaces
/// in order, set the container hostname if the UTS domain is isolated,
/// and, if resource limits were requested, create a cgroup named for this
/// launch, apply the limits and assign the current process so the child
/// inherits membership. Returns the cgroup to hold for the launch's
/// lifetime and the plan of the inner-stage re-exec; any failure aborts
/// the attempt, with the effects of earlier steps left in place and a
/// cgroup already created reclaimed by its own teardown.
pub fn outer_prepare(
    opts: &RunOpts,
    config: &NamespaceConfig,
    limits: Option<&ResourceLimits>,
    cgroup_name: &str,
) -> (r: Result<(Option<Cgroup>, CommandPlan), LaunchError>)
    ensures
        r matches Ok((cg, plan)) ==> ({
            &&& spec_is_reexec_plan(plan, *opts)
            &&& cg is Some <==> limits is Some
            &&& cg matches Some(c) ==> c.wf() && c.spec_name() == cgroup_name@ && c.spec_root()
                == "/sys/fs/cgroup"@
        }),
        r matches Err(e) ==> ({
            &&& e is Isolation || e is Hostname || e is CgroupSetup
            &&& e matches LaunchError::Isolation(ie) ==> config.spec_enabled().contains(ie.kind)
            &&& e is Hostname ==> config.uts
            &&& e is CgroupSetup ==> limits is Some
        }),
        config.spec_enabled().len() == 0 && !config.uts && limits is None ==> r is Ok,
{
    match setup_namespaces(config) {
        Ok(()) => {},
        Err(e) => {
            return Err(LaunchError::Isolation(e));
        },
    }
    if config.uts {
        match sys::set_host_name("container") {
            Ok(()) => {},
            Err(errno) => {
                return Err(LaunchError::Hostname(errno));
            },
        }
    }
    let cg: Option<Cgroup> = match limits {
        Some(l) => {
            let c = match Cgroup::new(cgroup_name) {
                Ok(c) => c,
                Err(e) => {
                    return Err(LaunchError::CgroupSetup(e));
                },
            };
            match c.apply_limits(l) {
                Ok(()) => {},
                Err(e) => {
                    return Err(LaunchError::CgroupSetup(e));
                },
            }
            match c.add_process(sys::current_pid()) {
                Ok(()) => {},
                Err(e) => {
                    return Err(LaunchError::CgroupSetup(e));
                },
            }
            Some(c)
        },
        None => None,
    };
    Ok((cg, reexec_command(opts)))
}

/// The outer stage, after the inner stage exited: release the launch's
/// cgroup, if one was attached — its directory removal is attempted as the
/// controller is dropped, best-effort — and adopt the child's exit status
/// as the launch's own terminal result.
pub fn outer_finish(cgroup: Option<Cgroup>, status: i32) -> (r: i32)
    ensures
        r == status,
{
    let _released = cgroup;
    status
}

/// The root pivot alone: change the root directory to the supplied root
/// path and the working directory to the new root. Any failure here is a
/// root-pivot failure — this function can report no other kind.
pub fn pivot_into_root(opts: &RunOpts) -> (r: Result<(), LaunchError>)
    ensures
        r matches Err(e) ==> e is RootPivot,
{
    match sys::chroot_dir(opts.fsroot.as_str()) {
        Ok(()) => {},
        Err(errno) => {
            return Err(LaunchError::RootPivot(errno));
        },
    }
    match sys::chdir_path("/") {
        Ok(()) => {},
        Err(errno) => {
            return Err(LaunchError::RootPivot(errno));
        },
    }
    Ok(())
}

/// The mounts alone: mount the process-information filesystem at /proc
/// and the ephemeral filesystem at /tmp, in that order, relative to the
/// current root. Any failure here is a mount failure naming its mount
/// point — this function can report no other kind. A mount that succeeded
/// before a failing one is left for the namespace's own teardown.
pub fn mount_virtual_filesystems() -> (r: Result<(), LaunchError>)
    ensures
        r matches Err(e) ==> e is Mount,
{
    let mounts: [MountPoint; 2] = [MountPoint::Proc, MountPoint::Tmp];
    let mut i: usize = 0;
    while i < 2
        invariant
            i <= 2,
        decreases 2 - i,
    {
        let m = mounts[i];
        match sys::mount_vfs(m.fstype(), m.target()) {
            Ok(()) => {},
            Err(errno) => {
                return Err(LaunchError::Mount(m, errno));
            },
        }
        i = i + 1;
    }
    Ok(())
}

/// The inner stage, up to the exec of the target: pivot into the supplied
/// root, then mount the virtual filesystems under it, and return the plan
/// of the target application's command. A failed pivot aborts before any
/// mount is attempted and reports a root-pivot failure, never a mount
/// failure — the two phases can each report only their own kind.
pub fn inner_prepare(opts: &RunOpts) -> (r: Result<CommandPlan, LaunchError>)
    ensures
        r matches Ok(p) ==> spec_is_app_plan(p, *opts),
        r matches Err(e) ==> e is RootPivot || e is Mount,
{
    match pivot_into_root(opts) {
        Ok(()) => {},
        Err(e) => {
            return Err(e);
        },
    }
    match mount_virtual_filesystems() {
        Ok(()) => {},
        Err(e) => {
            return Err(e);
        },
    }
    Ok(app_command(opts))
}

/// The inner stage, after the target exited: unmount the virtual
/// filesystems in reverse order of mounting, best-effort. Failures are
/// swallowed: the process is about to exit and the mount namespace's own
/// teardown reclaims whatever is left.
pub fn inner_cleanup() {
    let _ = sys::unmount(MountPoint::Tmp.target());
    let _ = sys::unmount(MountPoint::Proc.target());
}

} // verus!
