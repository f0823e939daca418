use rustainer::launcher::LaunchError;
use rustainer::launcher::MountPoint;
use rustainer::launcher::app_command;
use rustainer::launcher::inner_prepare;
use rustainer::launcher::pivot_into_root;
use rustainer::launcher::outer_finish;
use rustainer::launcher::outer_prepare;
use rustainer::launcher::reexec_command;
use rustainer::namespace::NamespaceConfig;
use rustainer::opts::RunOpts;
use rustainer::protocol::LaunchAction;
use rustainer::protocol::LaunchStage;

fn sample_opts() -> RunOpts {
    RunOpts {
        fsroot: String::from("/var/lib/rustainer/container/demo"),
        app: String::from("/bin/true"),
        arguments: vec![String::from("-a"), String::from("-b")],
    }
}

#[test]
fn reexec_plan_carries_the_request_across_the_process_boundary() {
    let plan = reexec_command(&sample_opts());
    assert_eq!(plan.program, "/proc/self/exe");
    assert_eq!(plan.arg_zero.as_deref(), Some("init"));
    assert_eq!(plan.path_env.as_deref(), Some("/bin"));
    assert_eq!(
        plan.args,
        vec![
            String::from("start"),
            String::from("--fsroot"),
            String::from("/var/lib/rustainer/container/demo"),
            String::from("/bin/true"),
            String::from("-a"),
            String::from("-b"),
        ]
    );
}

#[test]
fn app_plan_runs_the_target_with_its_arguments_unchanged() {
    let plan = app_command(&sample_opts());
    assert_eq!(plan.program, "/bin/true");
    assert!(plan.arg_zero.is_none());
    assert!(plan.path_env.is_none());
    assert_eq!(plan.args, vec![String::from("-a"), String::from("-b")]);
}

#[test]
fn mount_points_and_filesystem_types() {
    assert_eq!(MountPoint::Proc.target(), "/proc");
    assert_eq!(MountPoint::Proc.fstype(), "proc");
    assert_eq!(MountPoint::Tmp.target(), "/tmp");
    assert_eq!(MountPoint::Tmp.fstype(), "tmpfs");
}

#[test]
fn each_error_names_the_stage_it_aborted() {
    assert_eq!(
        LaunchError::Hostname(1).stage(),
        LaunchStage::NamespacesIsolated
    );
    assert_eq!(LaunchError::RootPivot(2).stage(), LaunchStage::RootPivoted);
    assert_eq!(
        LaunchError::Mount(MountPoint::Proc, 1).stage(),
        LaunchStage::VirtualFilesystemsMounted
    );
}

#[test]
fn a_fully_successful_launch_passes_every_stage_in_order() {
    let stages_with_limits = [
        LaunchStage::Requested,
        LaunchStage::NamespacesIsolated,
        LaunchStage::CgroupAttached,
        LaunchStage::Reexecuted,
        LaunchStage::RootPivoted,
        LaunchStage::VirtualFilesystemsMounted,
        LaunchStage::AppRunning,
        LaunchStage::Unmounted,
        LaunchStage::Terminated,
    ];
    let mut s = LaunchStage::Requested;
    for expected in &stages_with_limits[1..] {
        assert!(!s.is_terminal());
        s = s.advance(true, true);
        assert_eq!(s, *expected);
    }
    assert!(s.is_terminal());

    let mut s = LaunchStage::Requested;
    let without_limits = [
        LaunchStage::NamespacesIsolated,
        LaunchStage::Reexecuted,
        LaunchStage::RootPivoted,
        LaunchStage::VirtualFilesystemsMounted,
        LaunchStage::AppRunning,
        LaunchStage::Unmounted,
        LaunchStage::Terminated,
    ];
    for expected in &without_limits {
        s = s.advance(true, false);
        assert_eq!(s, *expected);
    }
}

#[test]
fn a_failed_pivot_aborts_and_never_reaches_mounting() {
    let s = LaunchStage::Reexecuted.advance(false, true);
    assert_eq!(s, LaunchStage::Aborted);
    assert_eq!(s.advance(true, true), LaunchStage::Aborted);
    assert_eq!(s.action(true), None);
}

#[test]
fn unmount_and_propagation_failures_are_swallowed() {
    assert_eq!(
        LaunchStage::AppRunning.advance(false, false),
        LaunchStage::Unmounted
    );
    assert_eq!(
        LaunchStage::Unmounted.advance(false, false),
        LaunchStage::Terminated
    );
}

#[test]
fn the_cgroup_stage_exists_only_when_limits_were_requested() {
    assert_eq!(
        LaunchStage::NamespacesIsolated.action(true),
        Some(LaunchAction::AttachCgroup)
    );
    assert_eq!(
        LaunchStage::NamespacesIsolated.action(false),
        Some(LaunchAction::SpawnInner)
    );
}

#[test]
fn launching_against_a_missing_root_reports_a_pivot_failure_not_a_mount_failure() {
    let opts = RunOpts {
        fsroot: String::from("/tmp/rustainer_no_such_root"),
        app: String::from("/bin/true"),
        arguments: vec![],
    };
    match inner_prepare(&opts) {
        Err(LaunchError::RootPivot(_)) => {}
        Err(e) => panic!("expected a root-pivot failure, got {:?}", e),
        Ok(_) => panic!("a missing root must abort the launch"),
    }
}

#[test]
fn the_pivot_phase_reports_only_pivot_failures() {
    let opts = RunOpts {
        fsroot: String::from("/tmp/rustainer_no_such_root"),
        app: String::from("/bin/true"),
        arguments: vec![],
    };
    match pivot_into_root(&opts) {
        Err(LaunchError::RootPivot(e)) => assert_eq!(e, nix::errno::Errno::ENOENT as i32),
        Err(e) => panic!("expected a root-pivot failure, got {:?}", e),
        Ok(()) => panic!("a missing root cannot be entered"),
    }
}

#[test]
fn outer_stage_with_nothing_to_isolate_and_no_limits_succeeds() {
    let opts = sample_opts();
    let config = NamespaceConfig::default();
    let (cgroup, plan) = outer_prepare(&opts, &config, None, "unused").expect("nothing can fail");
    assert!(cgroup.is_none());
    assert_eq!(plan.program, "/proc/self/exe");
    assert_eq!(plan.args[0], "start");
}

#[test]
fn the_outer_stage_adopts_the_child_exit_status() {
    assert_eq!(outer_finish(None, 0), 0);
    assert_eq!(outer_finish(None, 42), 42);
}
