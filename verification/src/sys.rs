//! Thin wrappers around the kernel primitives this engine coordinates.
//!
//! Every function here performs one call into the `nix` crate and converts
//! its error to the raw OS error number. Nothing is promised about success
//! or failure of these calls: whether they succeed depends on privileges,
//! platform capabilities and the state of the host, so each caller states
//! what holds of every outcome.

use vstd::prelude::*;

verus! {

/// Relies on nix::sched::unshare: disassociates the namespaces named by the
/// given clone-flag bits from the calling process. Success depends on
/// privileges and kernel support, so nothing is promised of the result.
#[verifier::external_body]
pub(crate) fn unshare_namespaces(flags: u64) -> (r: Result<(), i32>) {
    nix::sched::unshare(nix::sched::CloneFlags::from_bits_truncate(flags as i32))
        .map_err(|e| e as i32)
}

/// Relies on nix::unistd::sethostname: sets the hostname of the current
/// UTS namespace.
#[verifier::external_body]
pub(crate) fn set_host_name(name: &str) -> (r: Result<(), i32>) {
    nix::unistd::sethostname(name).map_err(|e| e as i32)
}

/// Relies on nix::unistd::chroot: changes the root directory of the calling
/// process to the given path.
#[verifier::external_body]
pub(crate) fn chroot_dir(path: &str) -> (r: Result<(), i32>) {
    nix::unistd::chroot(path).map_err(|e| e as i32)
}

/// Relies on nix::unistd::chdir: changes the working directory of the
/// calling process to the given path.
#[verifier::external_body]
pub(crate) fn chdir_path(path: &str) -> (r: Result<(), i32>) {
    nix::unistd::chdir(path).map_err(|e| e as i32)
}

/// Relies on nix::mount::mount: mounts a fresh instance of the virtual
/// filesystem `fstype` at `target`, with no source device, no mount flags
/// and no filesystem-specific data.
#[verifier::external_body]
pub(crate) fn mount_vfs(fstype: &str, target: &str) -> (r: Result<(), i32>) {
    nix::mount::mount(
        None::<&str>,
        target,
        Some(fstype),
        nix::mount::MsFlags::empty(),
        None::<&str>,
    )
    .map_err(|e| e as i32)
}

/// Relies on nix::mount::umount: unmounts the filesystem mounted at `target`.
#[verifier::external_body]
pub(crate) fn unmount(target: &str) -> (r: Result<(), i32>) {
    nix::mount::umount(target).map_err(|e| e as i32)
}

/// Relies on nix::unistd::mkdir: creates the directory at `path` with mode
/// 0o755. Fails with EEXIST if the path already exists.
#[verifier::external_body]
pub(crate) fn make_dir(path: &str) -> (r: Result<(), i32>) {
    nix::unistd::mkdir(path, nix::sys::stat::Mode::from_bits_truncate(0o755))
        .map_err(|e| e as i32)
}

/// Relies on nix::unistd::unlinkat with RemoveDir: removes the directory at
/// `path`. Does not unwind: nix reports every failure as an Err value.
#[verifier::external_body]
pub(crate) fn remove_dir(path: &String) -> (r: Result<(), i32>)
    opens_invariants none
    no_unwind
{
    nix::unistd::unlinkat(None, path.as_str(), nix::unistd::UnlinkatFlags::RemoveDir)
        .map_err(|e| e as i32)
}

/// Relies on nix::fcntl::open with O_WRONLY | O_CREAT | O_TRUNC: opens the
/// file at `path` for writing, truncating it, and returns the file
/// descriptor.
#[verifier::external_body]
pub(crate) fn open_for_write(path: &str) -> (r: Result<i32, i32>) {
    nix::fcntl::open(
        path,
        nix::fcntl::OFlag::O_WRONLY | nix::fcntl::OFlag::O_CREAT | nix::fcntl::OFlag::O_TRUNC,
        nix::sys::stat::Mode::from_bits_truncate(0o644),
    )
    .map_err(|e| e as i32)
}

/// Relies on nix::unistd::write: writes the bytes of `buf` from position
/// `from` onward to the open descriptor `fd` and returns how many bytes the
/// kernel accepted, which is at most the number offered.
#[verifier::external_body]
pub(crate) fn write_fd(fd: i32, buf: &[u8], from: usize) -> (r: Result<usize, i32>)
    requires
        from <= buf@.len(),
    ensures
        r matches Ok(n) ==> from + n <= buf@.len(),
{
    nix::unistd::write(fd, &buf[from..]).map_err(|e| e as i32)
}

/// Relies on nix::unistd::close: closes the open descriptor `fd`. Does not
/// unwind: nix reports every failure as an Err value.
#[verifier::external_body]
pub(crate) fn close_fd(fd: i32) -> (r: Result<(), i32>)
    no_unwind
{
    nix::unistd::close(fd).map_err(|e| e as i32)
}

/// Relies on nix::unistd::getpid: returns the process identifier of the
/// calling process. Which value comes back depends on the process, so
/// nothing is promised of it.
#[verifier::external_body]
pub(crate) fn current_pid() -> (r: u32) {
    nix::unistd::getpid().as_raw() as u32
}

} // verus!
