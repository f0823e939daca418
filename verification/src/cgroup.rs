//! Cgroup controller: one resource-control directory per launch, created on
//! construction, written with decimal limit values, and removed (best
//! effort) when the controller is dropped.

use vstd::prelude::*;
use vstd::string::StringExecFns;
use crate::sys;

verus! {

/// OS error number for "file exists" (EEXIST on Linux).
pub const ERRNO_EEXIST: i32 = 17;

/// OS error number for an input/output error (EIO on Linux), reported when
/// the kernel accepts no bytes of a control-file write.
pub const ERRNO_IO: i32 = 5;

/// Root of the control-group filesystem hierarchy.
pub fn cgroup_root() -> (r: &'static str)
    ensures
        r@ == "/sys/fs/cgroup"@,
{
    "/sys/fs/cgroup"
}

/// Resource limits for a container. Any absent field means "inherit the
/// host default, do not constrain".
#[derive(Debug, Clone)]
pub struct ResourceLimits {
    /// Memory limit in bytes.
    pub memory_limit: Option<u64>,
    /// CPU weight in the range [1, 10000]; out-of-range values are rejected
    /// by the kernel interface itself, not by this layer.
    pub cpu_weight: Option<u32>,
    /// Maximum number of PIDs.
    pub pids_max: Option<u64>,
}

impl Default for ResourceLimits {
    /// The default limits constrain nothing.
    fn default() -> (r: Self)
        ensures
            r.memory_limit is None,
            r.cpu_weight is None,
            r.pids_max is None,
    {
        ResourceLimits { memory_limit: None, cpu_weight: None, pids_max: None }
    }
}

/// The control files this controller writes, one per limit kind plus the
/// process-membership file.
#[derive(Clone, Copy, Debug, PartialEq, Eq, Structural)]
pub enum ControlFile {
    /// The process-membership file: a PID written here moves that process
    /// into the group.
    Procs,
    /// The memory-limit file, in bytes.
    MemoryMax,
    /// The CPU-weight file, in [1, 10000].
    CpuWeight,
    /// The PID-count-limit file.
    PidsMax,
}

impl ControlFile {
    /// The name of this control file inside the group's directory.
    pub open spec fn spec_file_name(self) -> Seq<char> {
        match self {
            ControlFile::Procs => "cgroup.procs"@,
            ControlFile::MemoryMax => "memory.max"@,
            ControlFile::CpuWeight => "cpu.weight"@,
            ControlFile::PidsMax => "pids.max"@,
        }
    }

    /// The file name this control file is written under.
    pub fn file_name(&self) -> (r: &'static str)
        ensures
            r@ == self.spec_file_name(),
    {
        match self {
            ControlFile::Procs => "cgroup.procs",
            ControlFile::MemoryMax => "memory.max",
            ControlFile::CpuWeight => "cpu.weight",
            ControlFile::PidsMax => "pids.max",
        }
    }
}

/// The decimal digit character for a value below ten.
pub open spec fn spec_digit_char(d: nat) -> char {
    if d == 0 {
        '0'
    } else if d == 1 {
        '1'
    } else if d == 2 {
        '2'
    } else if d == 3 {
        '3'
    } else if d == 4 {
        '4'
    } else if d == 5 {
        '5'
    } else if d == 6 {
        '6'
    } else if d == 7 {
        '7'
    } else if d == 8 {
        '8'
    } else {
        '9'
    }
}

/// The decimal rendering of a number: its digits in order, with no sign,
/// no leading zero except for zero itself.
pub open spec fn spec_decimal(n: nat) -> Seq<char>
    decreases n,
{
    if n < 10 {
        seq![spec_digit_char(n)]
    } else {
        spec_decimal(n / 10).push(spec_digit_char(n % 10))
    }
}

fn digit_str(d: u64) -> (r: &'static str)
    requires
        d < 10,
    ensures
        r@ == seq![spec_digit_char(d as nat)],
{
    let r: &'static str = match d {
        0 => "0",
        1 => "1",
        2 => "2",
        3 => "3",
        4 => "4",
        5 => "5",
        6 => "6",
        7 => "7",
        8 => "8",
        _ => "9",
    };
    proof {
        reveal_strlit("0");
        reveal_strlit("1");
        reveal_strlit("2");
        reveal_strlit("3");
        reveal_strlit("4");
        reveal_strlit("5");
        reveal_strlit("6");
        reveal_strlit("7");
        reveal_strlit("8");
        reveal_strlit("9");
        assert(r@ =~= seq![spec_digit_char(d as nat)]);
    }
    r
}

/// Render a value as the decimal string a control file expects.
pub fn decimal_string(n: u64) -> (r: String)
    ensures
        r@ == spec_decimal(n as nat),
    decreases n,
{
    if n < 10 {
        digit_str(n).to_owned()
    } else {
        let q = decimal_string(n / 10);
        let d = digit_str(n % 10);
        let r = q.concat(d);
        proof {
            assert(r@ =~= spec_decimal(n as nat));
        }
        r
    }
}

/// The exact text a membership write hands the kernel: the decimal PID
/// followed by a newline.
pub open spec fn spec_membership_record(pid: nat) -> Seq<char> {
    spec_decimal(pid).push('\n')
}

/// Render the membership record for a process: its decimal identifier,
/// newline-terminated.
pub fn membership_record(pid: u32) -> (r: String)
    ensures
        r@ == spec_membership_record(pid as nat),
{
    let mut s = decimal_string(pid as u64);
    s.append("\n");
    proof {
        reveal_strlit("\n");
        assert(s@ =~= spec_membership_record(pid as nat));
    }
    s
}

/// One write this controller intends: which control file, and the value
/// whose decimal rendering goes into it.
#[derive(Clone, Copy, Debug, PartialEq, Eq, Structural)]
pub struct ControlWrite {
    pub file: ControlFile,
    pub value: u64,
}

/// The writes that applying a set of limits performs: one write per present
/// field, to that field's dedicated file, in field order, and no other
/// write. The fields are mutually independent, so any order would do; this
/// one is fixed for determinism.
pub open spec fn spec_write_plan(limits: ResourceLimits) -> Seq<ControlWrite> {
    (match limits.memory_limit {
        Some(m) => seq![ControlWrite { file: ControlFile::MemoryMax, value: m }],
        None => Seq::empty(),
    }) + (match limits.cpu_weight {
        Some(w) => seq![ControlWrite { file: ControlFile::CpuWeight, value: w as u64 }],
        None => Seq::empty(),
    }) + (match limits.pids_max {
        Some(p) => seq![ControlWrite { file: ControlFile::PidsMax, value: p }],
        None => Seq::empty(),
    })
}

/// The writes that applying `limits` performs, in order.
pub fn write_plan(limits: &ResourceLimits) -> (r: Vec<ControlWrite>)
    ensures
        r@ == spec_write_plan(*limits),
{
    let mut plan: Vec<ControlWrite> = Vec::new();
    if let Some(m) = limits.memory_limit {
        plan.push(ControlWrite { file: ControlFile::MemoryMax, value: m });
    }
    if let Some(w) = limits.cpu_weight {
        plan.push(ControlWrite { file: ControlFile::CpuWeight, value: w as u64 });
    }
    if let Some(p) = limits.pids_max {
        plan.push(ControlWrite { file: ControlFile::PidsMax, value: p });
    }
    proof {
        assert(plan@ =~= spec_write_plan(*limits));
    }
    plan
}

/// Limits that set only a memory limit plan exactly one write: the memory
/// value to the memory-limit file, and no other file is touched. Limits
/// that set nothing plan no write at all.
pub proof fn lemma_memory_only_plan(limits: ResourceLimits)
    requires
        limits.cpu_weight is None,
        limits.pids_max is None,
    ensures
        limits.memory_limit matches Some(m) ==> spec_write_plan(limits) =~= seq![
            ControlWrite { file: ControlFile::MemoryMax, value: m },
        ],
        limits.memory_limit is None ==> spec_write_plan(limits) =~= Seq::<ControlWrite>::empty(),
{
}

/// The directory of the control group named `name` under `root`.
pub open spec fn spec_cgroup_dir(root: Seq<char>, name: Seq<char>) -> Seq<char> {
    root + "/"@ + name
}

/// The path of a control file inside a group directory.
pub open spec fn spec_control_path(dir: Seq<char>, file: ControlFile) -> Seq<char> {
    dir + "/"@ + file.spec_file_name()
}

/// Join a directory path and an entry name with a single separator.
fn join_path(dir: &str, leaf: &str) -> (r: String)
    ensures
        r@ == dir@ + "/"@ + leaf@,
{
    let mut s = dir.to_owned();
    s.append("/");
    s.append(leaf);
    proof {
        assert(s@ =~= dir@ + "/"@ + leaf@);
    }
    s
}

/// Two distinct group names never share a directory under the same root.
pub proof fn lemma_distinct_names_distinct_dirs(root: Seq<char>, a: Seq<char>, b: Seq<char>)
    requires
        a != b,
    ensures
        spec_cgroup_dir(root, a) != spec_cgroup_dir(root, b),
{
    let pa = spec_cgroup_dir(root, a);
    let pb = spec_cgroup_dir(root, b);
    if pa == pb {
        let k = root.len() + "/"@.len();
        assert(pa.subrange(k as int, pa.len() as int) =~= a);
        assert(pb.subrange(k as int, pb.len() as int) =~= b);
        assert(a =~= b);
    }
}

/// A control-filesystem operation rejected by the OS: the raw error number,
/// and the control file whose write failed — None when the failure was the
/// creation of the group's directory, not a write.
#[derive(Clone, Copy, Debug, PartialEq, Eq)]
pub struct CgroupError {
    pub errno: i32,
    pub file: Option<ControlFile>,
}

/// A controller owning exactly one resource-control directory. The
/// directory is created (idempotently) on construction, exists for the
/// object's whole lifetime, and its removal is attempted exactly once, when
/// the object is dropped — on every exit path, with the removal's own
/// failure swallowed so teardown never fails a launch's exit path.
pub struct Cgroup {
    root: String,
    name: String,
    path: String,
}

impl Cgroup {
    /// The hierarchy root this controller was created under.
    pub closed spec fn spec_root(self) -> Seq<char> {
        self.root@
    }

    /// The name identifying this controller's directory.
    pub closed spec fn spec_name(self) -> Seq<char> {
        self.name@
    }

    /// The directory this controller owns.
    pub closed spec fn spec_path(self) -> Seq<char> {
        self.path@
    }

    /// The directory is exactly the root joined with the name.
    pub open spec fn wf(self) -> bool {
        self.spec_path() == spec_cgroup_dir(self.spec_root(), self.spec_name())
    }

    /// Create a controller for `name` under the given hierarchy root,
    /// ensuring its directory exists. A directory that already exists is
    /// not an error: construction is idempotent, so the reported failure is
    /// never "file exists". Creation is not exclusive, though — callers
    /// must keep names unique per concurrent launch.
    pub fn new_in(root: &str, name: &str) -> (r: Result<Cgroup, CgroupError>)
        ensures
            r matches Ok(c) ==> c.wf() && c.spec_root() == root@ && c.spec_name() == name@
                && c.spec_path() == spec_cgroup_dir(root@, name@),
            r matches Err(e) ==> e.errno != ERRNO_EEXIST && e.file is None,
    {
        let path = join_path(root, name);
        match sys::make_dir(path.as_str()) {
            Ok(()) => {},
            Err(errno) => {
                if errno != ERRNO_EEXIST {
                    return Err(CgroupError { errno, file: None });
                }
            },
        }
        Ok(Cgroup { root: root.to_owned(), name: name.to_owned(), path })
    }

    /// Create a controller for `name` under the system's control-group
    /// filesystem mount point.
    pub fn new(name: &str) -> (r: Result<Cgroup, CgroupError>)
        ensures
            r matches Ok(c) ==> c.wf() && c.spec_root() == "/sys/fs/cgroup"@ && c.spec_name()
                == name@ && c.spec_path() == spec_cgroup_dir("/sys/fs/cgroup"@, name@),
            r matches Err(e) ==> e.errno != ERRNO_EEXIST && e.file is None,
    {
        Cgroup::new_in(cgroup_root(), name)
    }

    /// The directory this controller owns.
    pub fn path(&self) -> (r: &String)
        ensures
            r@ == self.spec_path(),
    {
        &self.path
    }

    /// The path of the given control file inside this group's directory.
    fn control_path(&self, file: ControlFile) -> (r: String)
        ensures
            r@ == spec_control_path(self.spec_path(), file),
    {
        join_path(self.path.as_str(), file.file_name())
    }

    /// Write the given text into the given control file of this group's
    /// directory. A failure names that file.
    fn write_text(&self, file: ControlFile, contents: &str) -> (r: Result<(), CgroupError>)
        ensures
            r matches Err(e) ==> e.file == Some(file),
    {
        let p = self.control_path(file);
        match write_bytes(p.as_str(), contents) {
            Ok(()) => Ok(()),
            Err(errno) => Err(CgroupError { errno, file: Some(file) }),
        }
    }

    /// Write the decimal rendering of `value` into the given control file
    /// of this group's directory. A failure names that file.
    fn write_value(&self, file: ControlFile, value: u64) -> (r: Result<(), CgroupError>)
        ensures
            r matches Err(e) ==> e.file == Some(file),
    {
        let contents = decimal_string(value);
        self.write_text(file, contents.as_str())
    }

    /// Move the process with the given identifier (and, per kernel
    /// semantics, its children) into this group, by writing its membership
    /// record into the membership file. Fails with an I/O error if the
    /// control filesystem is unavailable or the process no longer exists;
    /// the failure names the membership file.
    pub fn add_process(&self, pid: u32) -> (r: Result<(), CgroupError>)
        ensures
            r matches Err(e) ==> e.file == Some(ControlFile::Procs),
    {
        let record = membership_record(pid);
        self.write_text(ControlFile::Procs, record.as_str())
    }

    /// Write the memory limit, in bytes, to the memory-limit file; a
    /// failure names that file.
    pub fn set_memory_limit(&self, bytes: u64) -> (r: Result<(), CgroupError>)
        ensures
            r matches Err(e) ==> e.file == Some(ControlFile::MemoryMax),
    {
        self.write_value(ControlFile::MemoryMax, bytes)
    }

    /// Write the CPU weight, in [1, 10000], to the CPU-weight file; a
    /// failure names that file. Out-of-range values are rejected by the
    /// kernel, not here.
    pub fn set_cpu_weight(&self, weight: u32) -> (r: Result<(), CgroupError>)
        ensures
            r matches Err(e) ==> e.file == Some(ControlFile::CpuWeight),
    {
        self.write_value(ControlFile::CpuWeight, weight as u64)
    }

    /// Write the maximum PID count to the PID-count-limit file; a failure
    /// names that file.
    pub fn set_pids_max(&self, max: u64) -> (r: Result<(), CgroupError>)
        ensures
            r matches Err(e) ==> e.file == Some(ControlFile::PidsMax),
    {
        self.write_value(ControlFile::PidsMax, max as u64)
    }

    /// Apply each present field of the limits, in field order: exactly the
    /// writes of the limits' write plan, each to its dedicated file; absent
    /// fields are untouched. Limits that ask for nothing make no kernel
    /// call and always succeed. Stops at the first rejected write; the
    /// failure names the dedicated file of one of the requested limits.
    pub fn apply_limits(&self, limits: &ResourceLimits) -> (r: Result<(), CgroupError>)
        ensures
            spec_write_plan(*limits).len() == 0 ==> r is Ok,
            r matches Err(e) ==> spec_write_plan(*limits).len() > 0 && (e.file matches Some(f)
                && (exists|j: int|
                    0 <= j < spec_write_plan(*limits).len() && (#[trigger] spec_write_plan(
                        *limits,
                    )[j]).file == f)),
    {
        let plan = write_plan(limits);
        let mut i: usize = 0;
        while i < plan.len()
            invariant
                i <= plan@.len(),
                plan@ == spec_write_plan(*limits),
            decreases plan@.len() - i,
        {
            let w = plan[i];
            match self.write_value(w.file, w.value) {
                Ok(()) => {},
                Err(e) => {
                    proof {
                        assert(spec_write_plan(*limits)[i as int].file == w.file);
                    }
                    return Err(e);
                },
            }
            i = i + 1;
        }
        Ok(())
    }
}

impl Drop for Cgroup {
    /// Teardown: attempt to remove the control directory, exactly once per
    /// controller lifetime. A removal failure (for example a lingering
    /// member process) is swallowed, never propagated: teardown must not
    /// fail the overall launch's exit path.
    fn drop(&mut self)
        opens_invariants none
        no_unwind
    {
        let _ = sys::remove_dir(&self.path);
    }
}

/// Open the file at `path`, write all of `contents` and close it. Returns
/// the OS error of the first failing call; the close after a failed write
/// is best-effort.
fn write_bytes(path: &str, contents: &str) -> (r: Result<(), i32>) {
    let fd = match sys::open_for_write(path) {
        Ok(fd) => fd,
        Err(e) => {
            return Err(e);
        },
    };
    let buf = contents.as_bytes();
    let mut from: usize = 0;
    while from < buf.len()
        invariant
            from <= buf@.len(),
        decreases buf@.len() - from,
    {
        match sys::write_fd(fd, buf, from) {
            Ok(n) => {
                if n == 0 {
                    let _ = sys::close_fd(fd);
                    return Err(ERRNO_IO);
                }
                from = from + n;
            },
            Err(e) => {
                let _ = sys::close_fd(fd);
                return Err(e);
            },
        }
    }
    match sys::close_fd(fd) {
        Ok(()) => Ok(()),
        Err(e) => Err(e),
    }
}

} // verus!
