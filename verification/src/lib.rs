//! A minimal container execution engine: given a filesystem root and an
//! executable, it isolates the executable's process tree with kernel
//! namespaces, constrains its resources through a cgroup, and launches it
//! inside a chroot jail with private mount points.

pub mod cgroup;
pub mod launcher;
pub mod namespace;
pub mod opts;
pub mod protocol;
mod sys;
