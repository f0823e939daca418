//! Namespace isolation: which kernel namespaces a launch unshares, and the
//! calls that unshare them.

use vstd::prelude::*;
use crate::sys;

verus! {

/// Kernel clone-flag bit for a new mount namespace (CLONE_NEWNS).
pub const FLAG_NEWNS: u64 = 0x20000;

/// Kernel clone-flag bit for a new UTS namespace (CLONE_NEWUTS).
pub const FLAG_NEWUTS: u64 = 0x4000000;

/// Kernel clone-flag bit for a new IPC namespace (CLONE_NEWIPC).
pub const FLAG_NEWIPC: u64 = 0x8000000;

/// Kernel clone-flag bit for a new PID namespace (CLONE_NEWPID).
pub const FLAG_NEWPID: u64 = 0x20000000;

/// Kernel clone-flag bit for a new network namespace (CLONE_NEWNET).
pub const FLAG_NEWNET: u64 = 0x40000000;

/// Kernel clone-flag bit for a new user namespace (CLONE_NEWUSER).
pub const FLAG_NEWUSER: u64 = 0x10000000;

/// Kernel clone-flag bit for a new cgroup namespace (CLONE_NEWCGROUP).
pub const FLAG_NEWCGROUP: u64 = 0x2000000;

/// The closed set of isolation domains a launch can unshare.
#[derive(Clone, Copy, Debug, PartialEq, Eq, Structural)]
pub enum NamespaceType {
    /// Mount namespace: isolate filesystem mount points.
    Mount,
    /// UTS namespace: isolate hostname and domain name.
    Uts,
    /// IPC namespace: isolate System V IPC and POSIX message queues.
    Ipc,
    /// PID namespace: isolate process IDs.
    Pid,
    /// Network namespace: isolate network devices, stacks, ports.
    Network,
    /// User namespace: isolate user and group IDs.
    User,
    /// Cgroup namespace: isolate the cgroup root directory.
    Cgroup,
}

impl NamespaceType {
    /// The kernel isolation flag this domain maps to.
    pub open spec fn spec_clone_flag(self) -> u64 {
        match self {
            NamespaceType::Mount => FLAG_NEWNS,
            NamespaceType::Uts => FLAG_NEWUTS,
            NamespaceType::Ipc => FLAG_NEWIPC,
            NamespaceType::Pid => FLAG_NEWPID,
            NamespaceType::Network => FLAG_NEWNET,
            NamespaceType::User => FLAG_NEWUSER,
            NamespaceType::Cgroup => FLAG_NEWCGROUP,
        }
    }

    /// Convert this domain to its kernel clone-flag bit. A pure, total
    /// mapping with no failure mode.
    pub fn to_clone_flag(&self) -> (r: u64)
        ensures
            r == self.spec_clone_flag(),
    {
        match self {
            NamespaceType::Mount => FLAG_NEWNS,
            NamespaceType::Uts => FLAG_NEWUTS,
            NamespaceType::Ipc => FLAG_NEWIPC,
            NamespaceType::Pid => FLAG_NEWPID,
            NamespaceType::Network => FLAG_NEWNET,
            NamespaceType::User => FLAG_NEWUSER,
            NamespaceType::Cgroup => FLAG_NEWCGROUP,
        }
    }
}

/// The mapping from isolation domain to kernel flag is injective: distinct
/// domains carry distinct flags, so no unshare call can stand for two
/// domains at once.
pub proof fn lemma_clone_flag_injective(a: NamespaceType, b: NamespaceType)
    ensures
        a.spec_clone_flag() == b.spec_clone_flag() ==> a == b,
{
}

/// Which isolation domains a launch turns on, one switch per domain.
#[derive(Clone, Copy, Debug, PartialEq, Eq, Structural)]
pub struct NamespaceConfig {
    pub mount: bool,
    pub uts: bool,
    pub ipc: bool,
    pub pid: bool,
    pub network: bool,
    pub user: bool,
    pub cgroup: bool,
}

impl NamespaceConfig {
    /// The configuration with every domain turned off.
    pub open spec fn spec_all_off() -> NamespaceConfig {
        NamespaceConfig {
            mount: false,
            uts: false,
            ipc: false,
            pid: false,
            network: false,
            user: false,
            cgroup: false,
        }
    }

    /// The container-default preset: mount, UTS, IPC and PID isolation on;
    /// network, user and cgroup isolation off.
    pub open spec fn spec_container_default() -> NamespaceConfig {
        NamespaceConfig {
            mount: true,
            uts: true,
            ipc: true,
            pid: true,
            network: false,
            user: false,
            cgroup: false,
        }
    }

    /// Create a namespace configuration with common container defaults:
    /// network isolation is off because the network is often shared with the
    /// host, user isolation is off because it requires additional setup, and
    /// cgroup isolation is optional.
    pub fn container_default() -> (r: Self)
        ensures
            r == NamespaceConfig::spec_container_default(),
    {
        NamespaceConfig {
            mount: true,
            uts: true,
            ipc: true,
            pid: true,
            network: false,
            user: false,
            cgroup: false,
        }
    }

    /// The enabled domains, in declaration order: mount, UTS, IPC, PID,
    /// network, user, cgroup. The order matters: mount isolation must
    /// precede any later mount operation, and PID isolation must precede
    /// the re-exec that becomes PID 1 of the new domain.
    pub open spec fn spec_enabled(self) -> Seq<NamespaceType> {
        (if self.mount { seq![NamespaceType::Mount] } else { Seq::empty() })
        + (if self.uts { seq![NamespaceType::Uts] } else { Seq::empty() })
        + (if self.ipc { seq![NamespaceType::Ipc] } else { Seq::empty() })
        + (if self.pid { seq![NamespaceType::Pid] } else { Seq::empty() })
        + (if self.network { seq![NamespaceType::Network] } else { Seq::empty() })
        + (if self.user { seq![NamespaceType::User] } else { Seq::empty() })
        + (if self.cgroup { seq![NamespaceType::Cgroup] } else { Seq::empty() })
    }

    /// List the enabled domains in declaration order. A pure function with
    /// no side effects.
    pub fn enabled_namespaces(&self) -> (r: Vec<NamespaceType>)
        ensures
            r@ == self.spec_enabled(),
    {
        let mut ns: Vec<NamespaceType> = Vec::new();
        if self.mount {
            ns.push(NamespaceType::Mount);
        }
        if self.uts {
            ns.push(NamespaceType::Uts);
        }
        if self.ipc {
            ns.push(NamespaceType::Ipc);
        }
        if self.pid {
            ns.push(NamespaceType::Pid);
        }
        if self.network {
            ns.push(NamespaceType::Network);
        }
        if self.user {
            ns.push(NamespaceType::User);
        }
        if self.cgroup {
            ns.push(NamespaceType::Cgroup);
        }
        proof {
            assert(ns@ =~= self.spec_enabled());
        }
        ns
    }
}

impl Default for NamespaceConfig {
    /// The default configuration isolates nothing.
    fn default() -> (r: Self)
        ensures
            r == NamespaceConfig::spec_all_off(),
    {
        NamespaceConfig {
            mount: false,
            uts: false,
            ipc: false,
            pid: false,
            network: false,
            user: false,
            cgroup: false,
        }
    }
}

/// The container-default preset enables exactly mount, UTS, IPC and PID
/// isolation, in that order, and never network, user or cgroup isolation.
pub proof fn lemma_container_default_enabled()
    ensures
        NamespaceConfig::spec_container_default().spec_enabled() =~= seq![
            NamespaceType::Mount,
            NamespaceType::Uts,
            NamespaceType::Ipc,
            NamespaceType::Pid,
        ],
        !NamespaceConfig::spec_container_default().spec_enabled().contains(
            NamespaceType::Network,
        ),
        !NamespaceConfig::spec_container_default().spec_enabled().contains(NamespaceType::User),
        !NamespaceConfig::spec_container_default().spec_enabled().contains(NamespaceType::Cgroup),
{
    let e = NamespaceConfig::spec_container_default().spec_enabled();
    assert(e =~= seq![
        NamespaceType::Mount,
        NamespaceType::Uts,
        NamespaceType::Ipc,
        NamespaceType::Pid,
    ]);
}

/// An unshare call rejected by the kernel: which domain failed, and the OS
/// error number the kernel returned.
#[derive(Clone, Copy, Debug, PartialEq, Eq, Structural)]
pub struct IsolationError {
    pub kind: NamespaceType,
    pub errno: i32,
}

/// Unshare the enabled namespaces of `config`, in declaration order. Fails
/// immediately on the first rejected call, with no rollback: domains
/// unshared before the failing call remain in effect, and the caller is
/// expected to abandon the launch attempt. A configuration with nothing
/// enabled always succeeds, and any reported failure names an enabled
/// domain.
pub fn setup_namespaces(config: &NamespaceConfig) -> (r: Result<(), IsolationError>)
    ensures
        config.spec_enabled().len() == 0 ==> r is Ok,
        r matches Err(e) ==> config.spec_enabled().contains(e.kind),
{
    let kinds = config.enabled_namespaces();
    let mut i: usize = 0;
    while i < kinds.len()
        invariant
            i <= kinds@.len(),
            kinds@ == config.spec_enabled(),
        decreases kinds@.len() - i,
    {
        let kind = kinds[i];
        match sys::unshare_namespaces(kind.to_clone_flag()) {
            Ok(()) => {},
            Err(errno) => {
                return Err(IsolationError { kind, errno });
            },
        }
        i = i + 1;
    }
    Ok(())
}

} // verus!
