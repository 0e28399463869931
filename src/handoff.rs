//! The state machine that cleans up and hands the process over to the real
//! init, or aborts when there is none.
use vstd::prelude::*;
use crate::action::{Action, ActionView, Outcome, view_of};
use crate::classify::{BootContext, BootTopology, KernelFsMount, MountPlan, tmpfs_suffices};
use crate::layout::{DEV, INIT_REAL, MODE_HELPER, POLICY_TOOL, PROC, SERVICE_DEF_STAGING, owned};

verus! {

/// The handoff's states. Each stands for the action it has issued.
#[derive(Clone, Copy, Debug, PartialEq, Eq, Structural)]
pub enum Handoff {
    /// The mode helper, the staged service definition, then the policy tool.
    RemovingScratch(usize),
    UnmountingDev,
    UnmountingProc,
    ProbingInit,
    /// The process image is being replaced; an outcome means that failed.
    Executing,
    /// The grace period, then an abnormal end.
    Aborting,
}

/// Provisioning mounts a tmpfs on `/dev` in this context.
pub open spec fn mounts_dev(ctx: BootContext) -> bool {
    KernelFsMount::dev_plan(ctx) != MountPlan::Skip && (!tmpfs_suffices(ctx.facts)
        || !ctx.facts.root_writable)
}

/// Provisioning mounts `/proc` in this context.
pub open spec fn mounts_proc(ctx: BootContext) -> bool {
    KernelFsMount::proc_plan(ctx) != MountPlan::Skip
}

/// After a late start the real init mounts `/proc` and `/dev` itself, so the
/// ones this process mounted are taken down first: `/dev`, then `/proc`.
pub open spec fn after_dev_unmount(ctx: BootContext) -> Handoff {
    if ctx.topology == BootTopology::LateSystemAsRoot && mounts_proc(ctx) {
        Handoff::UnmountingProc
    } else {
        Handoff::ProbingInit
    }
}

pub open spec fn after_scratch(ctx: BootContext) -> Handoff {
    if ctx.topology == BootTopology::LateSystemAsRoot && mounts_dev(ctx) {
        Handoff::UnmountingDev
    } else {
        after_dev_unmount(ctx)
    }
}

impl Handoff {
    /// The handoff has issued its last action: the exec or the abort.
    pub open spec fn is_ending(&self) -> bool {
        self is Executing || self is Aborting
    }

    pub open spec fn next(self, ctx: BootContext, o: Outcome) -> Handoff {
        match self {
            Handoff::RemovingScratch(i) => if i < 2 {
                Handoff::RemovingScratch((i + 1) as usize)
            } else {
                after_scratch(ctx)
            },
            Handoff::UnmountingDev => after_dev_unmount(ctx),
            Handoff::UnmountingProc => Handoff::ProbingInit,
            Handoff::ProbingInit => if o.found() {
                Handoff::Executing
            } else {
                Handoff::Aborting
            },
            Handoff::Executing => Handoff::Aborting,
            Handoff::Aborting => Handoff::Aborting,
        }
    }

    pub open spec fn action_of(&self) -> Option<ActionView> {
        match self {
            Handoff::RemovingScratch(i) => Some(
                ActionView::RemoveFile(
                    if *i == 0 {
                        MODE_HELPER@
                    } else if *i == 1 {
                        SERVICE_DEF_STAGING@
                    } else {
                        POLICY_TOOL@
                    },
                ),
            ),
            Handoff::UnmountingDev => Some(ActionView::Unmount(DEV@)),
            Handoff::UnmountingProc => Some(ActionView::Unmount(PROC@)),
            Handoff::ProbingInit => Some(ActionView::ProbeExists(INIT_REAL@)),
            Handoff::Executing => Some(ActionView::Exec(INIT_REAL@)),
            Handoff::Aborting => Some(ActionView::Abort),
        }
    }

    pub open spec fn rank(&self) -> nat {
        match self {
            Handoff::RemovingScratch(i) => if *i == 0 {
                7
            } else if *i == 1 {
                6
            } else {
                5
            },
            Handoff::UnmountingDev => 4,
            Handoff::UnmountingProc => 3,
            Handoff::ProbingInit => 2,
            Handoff::Executing => 1,
            Handoff::Aborting => 0,
        }
    }

    /// The state the handoff begins in, after a completed boot setup or a
    /// failed one alike.
    pub fn start() -> (r: Handoff)
        ensures
            r == Handoff::RemovingScratch(0),
    {
        Handoff::RemovingScratch(0)
    }

    /// Moves on from this state with the outcome of its action.
    pub fn step(self, ctx: &BootContext, o: Outcome) -> (r: Handoff)
        ensures
            r == self.next(*ctx, o),
    {
        match self {
            Handoff::RemovingScratch(i) => if i < 2 {
                Handoff::RemovingScratch(i + 1)
            } else if ctx.topology == BootTopology::LateSystemAsRoot && mounts_dev_exec(ctx) {
                Handoff::UnmountingDev
            } else {
                after_dev_exec(ctx)
            },
            Handoff::UnmountingDev => after_dev_exec(ctx),
            Handoff::UnmountingProc => Handoff::ProbingInit,
            Handoff::ProbingInit => if o.is_found() {
                Handoff::Executing
            } else {
                Handoff::Aborting
            },
            Handoff::Executing => Handoff::Aborting,
            Handoff::Aborting => Handoff::Aborting,
        }
    }

    /// The action this state issues.
    pub fn action(&self) -> (r: Option<Action>)
        ensures
            view_of(r) == self.action_of(),
    {
        match self {
            Handoff::RemovingScratch(i) => Some(
                Action::RemoveFile(
                    if *i == 0 {
                        owned(MODE_HELPER)
                    } else if *i == 1 {
                        owned(SERVICE_DEF_STAGING)
                    } else {
                        owned(POLICY_TOOL)
                    },
                ),
            ),
            Handoff::UnmountingDev => Some(Action::Unmount(owned(DEV))),
            Handoff::UnmountingProc => Some(Action::Unmount(owned(PROC))),
            Handoff::ProbingInit => Some(Action::ProbeExists(owned(INIT_REAL))),
            Handoff::Executing => Some(Action::Exec(owned(INIT_REAL))),
            Handoff::Aborting => Some(Action::Abort),
        }
    }
}

fn mounts_dev_exec(ctx: &BootContext) -> (r: bool)
    ensures
        r == mounts_dev(*ctx),
{
    KernelFsMount::dev(ctx) != MountPlan::Skip && (!crate::classify::takes_tmpfs_path(&ctx.facts)
        || !ctx.facts.root_writable)
}

fn after_dev_exec(ctx: &BootContext) -> (r: Handoff)
    ensures
        r == after_dev_unmount(*ctx),
{
    if ctx.topology == BootTopology::LateSystemAsRoot && KernelFsMount::proc(ctx) != MountPlan::Skip {
        Handoff::UnmountingProc
    } else {
        Handoff::ProbingInit
    }
}

} // verus!
