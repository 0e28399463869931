//! The facts probed once at start, the boot topology derived from them, and the
//! decisions that depend on nothing else.
use vstd::prelude::*;
use crate::action::Asset;

verus! {

/// What a directory holds, as far as the boot logic cares.
#[derive(Clone, Copy, Debug, PartialEq, Eq, Structural)]
pub enum DirState {
    Absent,
    Empty,
    /// Present with entries, or present but unreadable.
    NonEmpty,
}

/// A directory counts as empty when it exists, can be listed, and the listing
/// has no first entry. `has_entry` is `None` when listing failed.
pub fn dir_is_empty(exists: bool, has_entry: Option<bool>) -> (r: bool)
    ensures
        r == (exists && has_entry == Some(false)),
{
    if exists {
        match has_entry {
            Some(entry) => !entry,
            None => false,
        }
    } else {
        false
    }
}

impl DirState {
    /// The state of a directory from the same observations as [`dir_is_empty`].
    pub fn observe(exists: bool, has_entry: Option<bool>) -> (r: DirState)
        ensures
            !exists <==> r == DirState::Absent,
            r == DirState::Empty <==> dir_is_empty_spec(exists, has_entry),
    {
        if !exists {
            DirState::Absent
        } else if dir_is_empty(exists, has_entry) {
            DirState::Empty
        } else {
            DirState::NonEmpty
        }
    }
}

pub open spec fn dir_is_empty_spec(exists: bool, has_entry: Option<bool>) -> bool {
    exists && has_entry == Some(false)
}

/// The facts the bootstrapper probes once, before it changes anything.
#[derive(Clone, Copy, Debug, PartialEq, Eq, Structural)]
pub struct Facts {
    /// The marker that the earlier ramdisk stage leaves in the environment.
    pub marker_present: bool,
    /// The configuration directory that only exists once the real init ran.
    pub late_config_present: bool,
    /// The root filesystem accepts writes.
    pub root_writable: bool,
    /// The canonical bin directory.
    pub bin_dir: DirState,
    /// A known file under `/proc` exists.
    pub proc_ready: bool,
    /// `/dev` has entries.
    pub dev_ready: bool,
    /// The system partition has a 64-bit library directory.
    pub lib64_present: bool,
    /// A locally kept copy of the daemon binary exists.
    pub local_binary_present: bool,
    /// A locally kept copy of the companion package exists.
    pub local_package_present: bool,
}

/// The boot layout the bootstrapper finds itself in.
#[derive(Clone, Copy, Debug, PartialEq, Eq, Structural)]
pub enum BootTopology {
    EarlyRamdiskWritable,
    EarlyRamdiskReadOnly,
    LateSystemAsRoot,
}

/// The bootstrapper starts after the real init has progressed: the earlier
/// stage left no marker, or the real init has set up its configuration.
pub open spec fn late_start(f: Facts) -> bool {
    !f.marker_present || f.late_config_present
}

/// The bin directory can be made writable with a plain tmpfs: the root is
/// writable, or the directory is there and empty.
pub open spec fn tmpfs_suffices(f: Facts) -> bool {
    f.root_writable || f.bin_dir == DirState::Empty
}

pub open spec fn topology_of(f: Facts) -> BootTopology {
    if late_start(f) {
        BootTopology::LateSystemAsRoot
    } else if tmpfs_suffices(f) {
        BootTopology::EarlyRamdiskWritable
    } else {
        BootTopology::EarlyRamdiskReadOnly
    }
}

/// True when the earlier stage's marker is absent or the late configuration
/// directory exists; see [`late_start`]. This is the condition that selects
/// the late system-as-root topology.
pub fn early_mode(f: &Facts) -> (r: bool)
    ensures
        r == late_start(*f),
{
    !f.marker_present || f.late_config_present
}

/// Whether the tmpfs strategy applies; see [`tmpfs_suffices`].
pub fn takes_tmpfs_path(f: &Facts) -> (r: bool)
    ensures
        r == tmpfs_suffices(*f),
{
    f.root_writable || f.bin_dir == DirState::Empty
}

/// Derives the boot topology from the probed facts.
pub fn classify(f: &Facts) -> (r: BootTopology)
    ensures
        r == topology_of(*f),
{
    if early_mode(f) {
        BootTopology::LateSystemAsRoot
    } else if takes_tmpfs_path(f) {
        BootTopology::EarlyRamdiskWritable
    } else {
        BootTopology::EarlyRamdiskReadOnly
    }
}

/// The facts together with the topology derived from them, computed once and
/// handed to every later decision.
#[derive(Clone, Copy, Debug, PartialEq, Eq, Structural)]
pub struct BootContext {
    pub topology: BootTopology,
    pub facts: Facts,
}

impl BootContext {
    pub fn new(facts: Facts) -> (r: BootContext)
        ensures
            r.facts == facts,
            r.topology == topology_of(facts),
    {
        BootContext { topology: classify(&facts), facts }
    }

    /// The daemon binary that suits the system: 64-bit when the system
    /// partition has 64-bit libraries.
    pub fn binary_asset(&self) -> (r: Asset)
        ensures
            r == binary_for(self.facts),
    {
        if self.facts.lib64_present {
            Asset::Binary64
        } else {
            Asset::Binary32
        }
    }
}

pub open spec fn binary_for(f: Facts) -> Asset {
    if f.lib64_present {
        Asset::Binary64
    } else {
        Asset::Binary32
    }
}

/// How a kernel filesystem mount is to be handled.
#[derive(Clone, Copy, Debug, PartialEq, Eq, Structural)]
pub enum MountPlan {
    /// Already in place: nothing to do.
    Skip,
    /// Mount it; a failure ends provisioning.
    Required,
}

pub open spec fn kernel_fs_plan(ready: bool) -> MountPlan {
    if ready {
        MountPlan::Skip
    } else {
        MountPlan::Required
    }
}

/// The kernel pseudo-filesystems the bootstrapper may have to provide.
pub struct KernelFsMount;

impl KernelFsMount {
    pub open spec fn proc_plan(ctx: BootContext) -> MountPlan {
        kernel_fs_plan(ctx.facts.proc_ready)
    }

    pub open spec fn dev_plan(ctx: BootContext) -> MountPlan {
        kernel_fs_plan(ctx.facts.dev_ready)
    }

    /// How to provide `/proc`: nothing when a known file under it exists;
    /// otherwise a mount, whose failure ends provisioning.
    pub fn proc(ctx: &BootContext) -> (r: MountPlan)
        ensures
            r == Self::proc_plan(*ctx),
    {
        plan(ctx.facts.proc_ready)
    }

    /// How to provide `/dev`: nothing when it has entries; otherwise a tmpfs
    /// mount, whose failure ends provisioning.
    pub fn dev(ctx: &BootContext) -> (r: MountPlan)
        ensures
            r == Self::dev_plan(*ctx),
    {
        plan(ctx.facts.dev_ready)
    }
}

fn plan(ready: bool) -> (r: MountPlan)
    ensures
        r == kernel_fs_plan(ready),
{
    if ready {
        MountPlan::Skip
    } else {
        MountPlan::Required
    }
}

} // verus!
