use rustainer::namespace::NamespaceConfig;
use rustainer::namespace::NamespaceType;
use rustainer::namespace::setup_namespaces;
use nix::sched::CloneFlags;

fn all_kinds() -> Vec<NamespaceType> {
    vec![
        NamespaceType::Mount,
        NamespaceType::Uts,
        NamespaceType::Ipc,
        NamespaceType::Pid,
        NamespaceType::Network,
        NamespaceType::User,
        NamespaceType::Cgroup,
    ]
}

#[test]
fn clone_flags_are_injective() {
    let kinds = all_kinds();
    for i in 0..kinds.len() {
        for j in 0..kinds.len() {
            if i != j {
                assert_ne!(kinds[i].to_clone_flag(), kinds[j].to_clone_flag());
            }
        }
    }
}

#[test]
fn clone_flags_match_the_kernel() {
    assert_eq!(
        NamespaceType::Mount.to_clone_flag(),
        CloneFlags::CLONE_NEWNS.bits() as u64
    );
    assert_eq!(
        NamespaceType::Uts.to_clone_flag(),
        CloneFlags::CLONE_NEWUTS.bits() as u64
    );
    assert_eq!(
        NamespaceType::Ipc.to_clone_flag(),
        CloneFlags::CLONE_NEWIPC.bits() as u64
    );
    assert_eq!(
        NamespaceType::Pid.to_clone_flag(),
        CloneFlags::CLONE_NEWPID.bits() as u64
    );
    assert_eq!(
        NamespaceType::Network.to_clone_flag(),
        CloneFlags::CLONE_NEWNET.bits() as u64
    );
    assert_eq!(
        NamespaceType::User.to_clone_flag(),
        CloneFlags::CLONE_NEWUSER.bits() as u64
    );
    assert_eq!(
        NamespaceType::Cgroup.to_clone_flag(),
        CloneFlags::CLONE_NEWCGROUP.bits() as u64
    );
}

#[test]
fn container_default_enables_exactly_mount_uts_ipc_pid_in_order() {
    let config = NamespaceConfig::container_default();
    let enabled = config.enabled_namespaces();
    assert_eq!(
        enabled,
        vec![
            NamespaceType::Mount,
            NamespaceType::Uts,
            NamespaceType::Ipc,
            NamespaceType::Pid,
        ]
    );
    assert!(!enabled.contains(&NamespaceType::Network));
    assert!(!enabled.contains(&NamespaceType::User));
    assert!(!enabled.contains(&NamespaceType::Cgroup));
}

#[test]
fn default_config_enables_nothing() {
    let config = NamespaceConfig::default();
    assert_eq!(config.enabled_namespaces(), vec![]);
}

#[test]
fn all_switches_on_list_every_domain_in_declaration_order() {
    let config = NamespaceConfig {
        mount: true,
        uts: true,
        ipc: true,
        pid: true,
        network: true,
        user: true,
        cgroup: true,
    };
    assert_eq!(config.enabled_namespaces(), all_kinds());
}

#[test]
fn setup_with_nothing_enabled_succeeds() {
    let config = NamespaceConfig::default();
    assert!(setup_namespaces(&config).is_ok());
}
