//! The state machine that produces a writable, executable bin directory,
//! either with a tmpfs or with an overlay over the system's binary directory.
use vstd::prelude::*;
use crate::action::{Action, ActionView, Asset, AssetSpec, AssetSpecView, FsKind, MountSpec,
    MountSpecView, Outcome, view_of};
use crate::classify::{BootContext, DirState, Facts, KernelFsMount, MountPlan, tmpfs_suffices};
use crate::layout::{BIN_MODE, DEV, EXPORTFS_MODULE, KERNEL_RELEASE_FILE, MODE_HELPER, OVERLAY_MODULE,
    OVERLAY_UPPER, OVERLAY_WORK, PROC, ROOT, SCRATCH_BIN, SYSTEM_BIN, kernel_module_path, module_file,
    owned, strip_newline, trim_newline};

verus! {

/// How the bin directory was made writable.
#[derive(Clone, Copy, Debug, PartialEq, Eq, Structural)]
pub enum Strategy {
    /// A fresh tmpfs on the dedicated bin directory.
    Tmpfs,
    /// An overlay over the system's binary directory.
    KernelOverlay,
    /// The dedicated bin directory already had entries and accepts writes.
    PreexistingWritable,
}

/// The directory a strategy makes writable.
pub open spec fn strategy_dir(s: Strategy) -> Seq<char> {
    match s {
        Strategy::KernelOverlay => SYSTEM_BIN@,
        _ => SCRATCH_BIN@,
    }
}

/// The writable bin directory that later steps put their files in.
#[derive(Debug)]
pub struct BinDirectory {
    pub path: String,
    pub strategy: Strategy,
}

impl BinDirectory {
    pub fn of(strategy: Strategy) -> (r: BinDirectory)
        ensures
            r.strategy == strategy,
            r.path@ == strategy_dir(strategy),
    {
        let path = match strategy {
            Strategy::KernelOverlay => owned(SYSTEM_BIN),
            _ => owned(SCRATCH_BIN),
        };
        BinDirectory { path, strategy }
    }
}

/// The provisioner's states. Each non-final state stands for the action it
/// has issued and waits on.
#[derive(Debug)]
pub enum Provision {
    MountingProc,
    /// Tmpfs path on a read-only root: `/dev` is needed first.
    MountingDev,
    CreatingBinDir,
    MountingBinTmpfs,
    RemountingRoot,
    ProbingBinDir,
    OverlayMountingDev,
    ReadingRelease,
    /// `release` is the kernel release file as read, newline included.
    LoadingExportfs { release: String },
    LoadingOverlayfs { release: String },
    CreatingUpper,
    CreatingWork,
    CloningPerms,
    MountingOverlay,
    WritingHelper,
    RunningHelper,
    RemovingHelper,
    Provisioned(Strategy),
    Failed,
}

pub open spec fn mount_view(source: Seq<char>, target: Seq<char>, kind: FsKind) -> ActionView {
    ActionView::Mount(MountSpecView { source, target, kind })
}

/// The first state of the tmpfs path once the kernel filesystems are in place.
pub open spec fn bin_entry(f: Facts) -> Provision {
    match f.bin_dir {
        DirState::Absent => Provision::CreatingBinDir,
        DirState::Empty => Provision::MountingBinTmpfs,
        DirState::NonEmpty => Provision::RemountingRoot,
    }
}

/// Where provisioning goes once `/proc` is handled.
pub open spec fn after_proc(ctx: BootContext) -> Provision {
    if tmpfs_suffices(ctx.facts) {
        if !ctx.facts.root_writable && KernelFsMount::dev_plan(ctx) != MountPlan::Skip {
            Provision::MountingDev
        } else {
            bin_entry(ctx.facts)
        }
    } else if KernelFsMount::dev_plan(ctx) != MountPlan::Skip {
        Provision::OverlayMountingDev
    } else {
        Provision::ReadingRelease
    }
}

impl Provision {
    pub open spec fn is_terminal(&self) -> bool {
        self is Provisioned || self is Failed
    }

    /// The state provisioning begins in.
    pub open spec fn initial(ctx: BootContext) -> Provision {
        if KernelFsMount::proc_plan(ctx) != MountPlan::Skip {
            Provision::MountingProc
        } else {
            after_proc(ctx)
        }
    }

    /// The state after this one, given the outcome of its action. Final states
    /// stay as they are.
    pub open spec fn next(self, ctx: BootContext, o: Outcome) -> Provision {
        let ok = o.succeeded();
        match self {
            Provision::MountingProc => if ok {
                after_proc(ctx)
            } else {
                Provision::Failed
            },
            Provision::MountingDev => if ok {
                bin_entry(ctx.facts)
            } else {
                Provision::Failed
            },
            Provision::CreatingBinDir => if ok {
                Provision::MountingBinTmpfs
            } else {
                Provision::Failed
            },
            Provision::MountingBinTmpfs => if ok {
                Provision::Provisioned(Strategy::Tmpfs)
            } else {
                Provision::Failed
            },
            Provision::RemountingRoot => Provision::ProbingBinDir,
            Provision::ProbingBinDir => if ok {
                Provision::Provisioned(Strategy::PreexistingWritable)
            } else {
                Provision::Failed
            },
            Provision::OverlayMountingDev => if ok {
                Provision::ReadingRelease
            } else {
                Provision::Failed
            },
            Provision::ReadingRelease => match o {
                Outcome::Text(release) => Provision::LoadingExportfs { release },
                _ => Provision::Failed,
            },
            Provision::LoadingExportfs { release } => if ok {
                Provision::LoadingOverlayfs { release }
            } else {
                Provision::Failed
            },
            Provision::LoadingOverlayfs { .. } => if ok {
                Provision::CreatingUpper
            } else {
                Provision::Failed
            },
            Provision::CreatingUpper => if ok {
                Provision::CreatingWork
            } else {
                Provision::Failed
            },
            Provision::CreatingWork => if ok {
                Provision::CloningPerms
            } else {
                Provision::Failed
            },
            Provision::CloningPerms => Provision::MountingOverlay,
            Provision::MountingOverlay => if ok {
                Provision::WritingHelper
            } else {
                Provision::Failed
            },
            Provision::WritingHelper => if ok {
                Provision::RunningHelper
            } else {
                Provision::Failed
            },
            Provision::RunningHelper => Provision::RemovingHelper,
            Provision::RemovingHelper => Provision::Provisioned(Strategy::KernelOverlay),
            Provision::Provisioned(s) => Provision::Provisioned(s),
            Provision::Failed => Provision::Failed,
        }
    }

    /// The action a state issues; final states issue none.
    pub open spec fn action_of(&self) -> Option<ActionView> {
        match self {
            Provision::MountingProc => Some(mount_view(PROC@, PROC@, FsKind::Proc)),
            Provision::MountingDev => Some(mount_view(DEV@, DEV@, FsKind::Tmpfs)),
            Provision::CreatingBinDir => Some(ActionView::CreateDir(SCRATCH_BIN@)),
            Provision::MountingBinTmpfs => Some(
                mount_view(SCRATCH_BIN@, SCRATCH_BIN@, FsKind::Tmpfs),
            ),
            Provision::RemountingRoot => Some(mount_view(ROOT@, ROOT@, FsKind::Remount)),
            Provision::ProbingBinDir => Some(ActionView::ProbeWritable(SCRATCH_BIN@)),
            Provision::OverlayMountingDev => Some(mount_view(DEV@, DEV@, FsKind::Tmpfs)),
            Provision::ReadingRelease => Some(ActionView::ReadText(KERNEL_RELEASE_FILE@)),
            Provision::LoadingExportfs { release } => Some(
                ActionView::LoadModule(module_file(strip_newline(release@), EXPORTFS_MODULE@)),
            ),
            Provision::LoadingOverlayfs { release } => Some(
                ActionView::LoadModule(module_file(strip_newline(release@), OVERLAY_MODULE@)),
            ),
            Provision::CreatingUpper => Some(ActionView::CreateDirAll(OVERLAY_UPPER@)),
            Provision::CreatingWork => Some(ActionView::CreateDirAll(OVERLAY_WORK@)),
            Provision::CloningPerms => Some(
                ActionView::ClonePerms { from: SYSTEM_BIN@, to: OVERLAY_UPPER@ },
            ),
            Provision::MountingOverlay => Some(
                ActionView::MountOverlay {
                    lower: SYSTEM_BIN@,
                    upper: OVERLAY_UPPER@,
                    work: OVERLAY_WORK@,
                    target: SYSTEM_BIN@,
                },
            ),
            Provision::WritingHelper => Some(
                ActionView::Extract(
                    AssetSpecView {
                        destination: MODE_HELPER@,
                        asset: Asset::ModeHelper,
                        mode: BIN_MODE,
                    },
                ),
            ),
            Provision::RunningHelper => Some(
                ActionView::RunModeHelper { helper: MODE_HELPER@, mode: BIN_MODE, target: SYSTEM_BIN@ },
            ),
            Provision::RemovingHelper => Some(ActionView::RemoveFile(MODE_HELPER@)),
            Provision::Provisioned(_) => None,
            Provision::Failed => None,
        }
    }

    /// An upper bound on the number of steps left before a final state.
    pub open spec fn rank(&self) -> nat {
        match self {
            Provision::MountingProc => 12,
            Provision::OverlayMountingDev => 11,
            Provision::ReadingRelease => 10,
            Provision::LoadingExportfs { .. } => 9,
            Provision::LoadingOverlayfs { .. } => 8,
            Provision::CreatingUpper => 7,
            Provision::CreatingWork => 6,
            Provision::CloningPerms => 5,
            Provision::MountingOverlay => 4,
            Provision::WritingHelper => 3,
            Provision::RunningHelper => 2,
            Provision::RemovingHelper => 1,
            Provision::MountingDev => 3,
            Provision::CreatingBinDir => 2,
            Provision::MountingBinTmpfs => 1,
            Provision::RemountingRoot => 2,
            Provision::ProbingBinDir => 1,
            Provision::Provisioned(_) => 0,
            Provision::Failed => 0,
        }
    }

    /// The state provisioning begins in; see [`Provision::initial`].
    pub fn start(ctx: &BootContext) -> (r: Provision)
        ensures
            r == Provision::initial(*ctx),
    {
        if KernelFsMount::proc(ctx) != MountPlan::Skip {
            Provision::MountingProc
        } else {
            after_proc_exec(ctx)
        }
    }

    /// Whether provisioning has ended, one way or the other.
    pub fn is_done(&self) -> (r: bool)
        ensures
            r == self.is_terminal(),
    {
        match self {
            Provision::Provisioned(_) | Provision::Failed => true,
            _ => false,
        }
    }

    /// Moves on from this state with the outcome of its action.
    pub fn step(self, ctx: &BootContext, o: Outcome) -> (r: Provision)
        ensures
            r == self.next(*ctx, o),
    {
        let ok = o.is_done();
        let fail = Provision::Failed;
        match self {
            Provision::MountingProc => {
                if ok {
                    after_proc_exec(ctx)
                } else {
                    fail
                }
            },
            Provision::MountingDev => {
                if ok {
                    bin_entry_exec(&ctx.facts)
                } else {
                    fail
                }
            },
            Provision::CreatingBinDir => if ok {
                Provision::MountingBinTmpfs
            } else {
                fail
            },
            Provision::MountingBinTmpfs => if ok {
                Provision::Provisioned(Strategy::Tmpfs)
            } else {
                fail
            },
            Provision::RemountingRoot => Provision::ProbingBinDir,
            Provision::ProbingBinDir => if ok {
                Provision::Provisioned(Strategy::PreexistingWritable)
            } else {
                fail
            },
            Provision::OverlayMountingDev => {
                if ok {
                    Provision::ReadingRelease
                } else {
                    fail
                }
            },
            Provision::ReadingRelease => match o {
                Outcome::Text(release) => Provision::LoadingExportfs { release },
                _ => fail,
            },
            Provision::LoadingExportfs { release } => if ok {
                Provision::LoadingOverlayfs { release }
            } else {
                fail
            },
            Provision::LoadingOverlayfs { .. } => if ok {
                Provision::CreatingUpper
            } else {
                fail
            },
            Provision::CreatingUpper => if ok {
                Provision::CreatingWork
            } else {
                fail
            },
            Provision::CreatingWork => if ok {
                Provision::CloningPerms
            } else {
                fail
            },
            Provision::CloningPerms => Provision::MountingOverlay,
            Provision::MountingOverlay => if ok {
                Provision::WritingHelper
            } else {
                fail
            },
            Provision::WritingHelper => if ok {
                Provision::RunningHelper
            } else {
                fail
            },
            Provision::RunningHelper => Provision::RemovingHelper,
            Provision::RemovingHelper => Provision::Provisioned(Strategy::KernelOverlay),
            Provision::Provisioned(s) => Provision::Provisioned(s),
            Provision::Failed => fail,
        }
    }

    /// The action this state issues, or `None` in a final state.
    pub fn action(&self) -> (r: Option<Action>)
        ensures
            view_of(r) == self.action_of(),
    {
        match self {
            Provision::MountingProc => Some(mount(PROC, PROC, FsKind::Proc)),
            Provision::MountingDev => Some(mount(DEV, DEV, FsKind::Tmpfs)),
            Provision::CreatingBinDir => Some(Action::CreateDir(owned(SCRATCH_BIN))),
            Provision::MountingBinTmpfs => Some(mount(SCRATCH_BIN, SCRATCH_BIN, FsKind::Tmpfs)),
            Provision::RemountingRoot => Some(mount(ROOT, ROOT, FsKind::Remount)),
            Provision::ProbingBinDir => Some(Action::ProbeWritable(owned(SCRATCH_BIN))),
            Provision::OverlayMountingDev => Some(mount(DEV, DEV, FsKind::Tmpfs)),
            Provision::ReadingRelease => Some(Action::ReadText(owned(KERNEL_RELEASE_FILE))),
            Provision::LoadingExportfs { release } => {
                let r = trim_newline(release.as_str());
                Some(Action::LoadModule(kernel_module_path(r.as_str(), EXPORTFS_MODULE)))
            },
            Provision::LoadingOverlayfs { release } => {
                let r = trim_newline(release.as_str());
                Some(Action::LoadModule(kernel_module_path(r.as_str(), OVERLAY_MODULE)))
            },
            Provision::CreatingUpper => Some(Action::CreateDirAll(owned(OVERLAY_UPPER))),
            Provision::CreatingWork => Some(Action::CreateDirAll(owned(OVERLAY_WORK))),
            Provision::CloningPerms => Some(
                Action::ClonePerms { from: owned(SYSTEM_BIN), to: owned(OVERLAY_UPPER) },
            ),
            Provision::MountingOverlay => Some(
                Action::MountOverlay {
                    lower: owned(SYSTEM_BIN),
                    upper: owned(OVERLAY_UPPER),
                    work: owned(OVERLAY_WORK),
                    target: owned(SYSTEM_BIN),
                },
            ),
            Provision::WritingHelper => Some(
                Action::Extract(
                    AssetSpec {
                        destination: owned(MODE_HELPER),
                        asset: Asset::ModeHelper,
                        mode: BIN_MODE,
                    },
                ),
            ),
            Provision::RunningHelper => Some(
                Action::RunModeHelper {
                    helper: owned(MODE_HELPER),
                    mode: BIN_MODE,
                    target: owned(SYSTEM_BIN),
                },
            ),
            Provision::RemovingHelper => Some(Action::RemoveFile(owned(MODE_HELPER))),
            Provision::Provisioned(_) => None,
            Provision::Failed => None,
        }
    }
}

/// A plain mount action.
pub fn mount(source: &str, target: &str, kind: FsKind) -> (r: Action)
    ensures
        r@ == mount_view(source@, target@, kind),
{
    Action::Mount(MountSpec { source: owned(source), target: owned(target), kind })
}

fn bin_entry_exec(f: &Facts) -> (r: Provision)
    ensures
        r == bin_entry(*f),
{
    match f.bin_dir {
        DirState::Absent => Provision::CreatingBinDir,
        DirState::Empty => Provision::MountingBinTmpfs,
        DirState::NonEmpty => Provision::RemountingRoot,
    }
}

fn after_proc_exec(ctx: &BootContext) -> (r: Provision)
    ensures
        r == after_proc(*ctx),
{
    if crate::classify::takes_tmpfs_path(&ctx.facts) {
        if !ctx.facts.root_writable && KernelFsMount::dev(ctx) != MountPlan::Skip {
            Provision::MountingDev
        } else {
            bin_entry_exec(&ctx.facts)
        }
    } else if KernelFsMount::dev(ctx) != MountPlan::Skip {
        Provision::OverlayMountingDev
    } else {
        Provision::ReadingRelease
    }
}

/// The states provisioning passes through from `s`, one outcome per action,
/// up to a final state or to the end of `outs`.
pub open spec fn trace(ctx: BootContext, s: Provision, outs: Seq<Outcome>) -> Seq<Provision>
    decreases outs.len(),
{
    if s.is_terminal() || outs.len() == 0 {
        seq![s]
    } else {
        seq![s] + trace(ctx, s.next(ctx, outs[0]), outs.drop_first())
    }
}

/// The states of a whole provisioning run.
pub open spec fn run(ctx: BootContext, outs: Seq<Outcome>) -> Seq<Provision> {
    trace(ctx, Provision::initial(ctx), outs)
}

/// The most steps a provisioning run takes.
pub const MAX_PROVISION_STEPS: usize = 12;

pub open spec fn issues_module_load(s: Provision) -> bool {
    s.action_of() matches Some(ActionView::LoadModule(_))
}

pub open spec fn issues_overlay_mount(s: Provision) -> bool {
    s.action_of() matches Some(ActionView::MountOverlay { .. })
}

/// Consecutive states of a trace are related by `next`.
pub proof fn lemma_trace_steps(ctx: BootContext, s: Provision, outs: Seq<Outcome>)
    ensures
        trace(ctx, s, outs).len() >= 1,
        trace(ctx, s, outs).len() <= outs.len() + 1,
        trace(ctx, s, outs)[0] == s,
        forall|k: int|
            0 <= k < trace(ctx, s, outs).len() - 1 ==> {
                &&& !(#[trigger] trace(ctx, s, outs)[k]).is_terminal()
                &&& trace(ctx, s, outs)[k + 1] == trace(ctx, s, outs)[k].next(ctx, outs[k])
            },
    decreases outs.len(),
{
    if !(s.is_terminal() || outs.len() == 0) {
        let n = s.next(ctx, outs[0]);
        let rest = outs.drop_first();
        lemma_trace_steps(ctx, n, rest);
        let t = trace(ctx, s, outs);
        assert forall|k: int| 0 <= k < t.len() - 1 implies {
            &&& !(#[trigger] t[k]).is_terminal()
            &&& t[k + 1] == t[k].next(ctx, outs[k])
        } by {
            if k > 0 {
                assert(t[k] == trace(ctx, n, rest)[k - 1]);
                assert(outs[k] == rest[k - 1]);
            }
        }
    }
}

/// Every step out of a non-final state lowers the rank.
pub proof fn lemma_rank_decreases(ctx: BootContext, s: Provision, o: Outcome)
    ensures
        !s.is_terminal() ==> s.next(ctx, o).rank() < s.rank(),
        s.is_terminal() <==> s.rank() == 0,
        Provision::initial(ctx).rank() <= MAX_PROVISION_STEPS,
{
}

proof fn lemma_reaches_end(ctx: BootContext, s: Provision, outs: Seq<Outcome>)
    requires
        s.rank() <= outs.len(),
    ensures
        trace(ctx, s, outs).last().is_terminal(),
    decreases outs.len(),
{
    lemma_rank_decreases(ctx, s, outs[0]);
    if !s.is_terminal() {
        let n = s.next(ctx, outs[0]);
        lemma_rank_decreases(ctx, n, outs[0]);
        lemma_reaches_end(ctx, n, outs.drop_first());
        let t = trace(ctx, n, outs.drop_first());
        assert(trace(ctx, s, outs).last() == t.last());
    }
}

/// Whatever the topology and whatever the outcomes, provisioning ends in
/// `Provisioned` or `Failed` within [`MAX_PROVISION_STEPS`] actions.
pub proof fn lemma_provisioning_ends(ctx: BootContext, outs: Seq<Outcome>)
    requires
        outs.len() >= MAX_PROVISION_STEPS,
    ensures
        run(ctx, outs).last().is_terminal(),
        run(ctx, outs).len() <= MAX_PROVISION_STEPS + 1,
{
    lemma_rank_decreases(ctx, Provision::initial(ctx), outs[0]);
    lemma_reaches_end(ctx, Provision::initial(ctx), outs);
    lemma_trace_len(ctx, Provision::initial(ctx), outs);
}

/// A trace is no longer than the rank of its first state, plus one.
pub proof fn lemma_trace_len(ctx: BootContext, s: Provision, outs: Seq<Outcome>)
    ensures
        trace(ctx, s, outs).len() <= s.rank() + 1,
    decreases outs.len(),
{
    if !(s.is_terminal() || outs.len() == 0) {
        let n = s.next(ctx, outs[0]);
        lemma_rank_decreases(ctx, s, outs[0]);
        lemma_trace_len(ctx, n, outs.drop_first());
    } else {
        lemma_rank_decreases(ctx, s, Outcome::Done);
    }
}

/// A property kept by every step holds of every state of a trace.
pub proof fn lemma_trace_keeps(
    ctx: BootContext,
    s: Provision,
    outs: Seq<Outcome>,
    inv: spec_fn(Provision) -> bool,
)
    requires
        inv(s),
        forall|x: Provision, o: Outcome|
            inv(x) && !x.is_terminal() ==> #[trigger] inv(x.next(ctx, o)),
    ensures
        forall|k: int| 0 <= k < trace(ctx, s, outs).len() ==> inv(#[trigger] trace(ctx, s, outs)[k]),
    decreases outs.len(),
{
    if !(s.is_terminal() || outs.len() == 0) {
        let n = s.next(ctx, outs[0]);
        lemma_trace_keeps(ctx, n, outs.drop_first(), inv);
        let t = trace(ctx, s, outs);
        assert forall|k: int| 0 <= k < t.len() implies inv(#[trigger] t[k]) by {
            if k > 0 {
                assert(t[k] == trace(ctx, n, outs.drop_first())[k - 1]);
            }
        }
    }
}

/// The states of the tmpfs path.
pub open spec fn on_tmpfs_path(s: Provision) -> bool {
    match s {
        Provision::MountingProc | Provision::MountingDev | Provision::CreatingBinDir
        | Provision::MountingBinTmpfs | Provision::RemountingRoot | Provision::ProbingBinDir
        | Provision::Failed => true,
        Provision::Provisioned(st) => st != Strategy::KernelOverlay,
        _ => false,
    }
}

/// The states of the overlay path.
pub open spec fn on_overlay_path(s: Provision) -> bool {
    match s {
        Provision::MountingDev | Provision::CreatingBinDir | Provision::MountingBinTmpfs
        | Provision::RemountingRoot | Provision::ProbingBinDir => false,
        Provision::Provisioned(st) => st == Strategy::KernelOverlay,
        _ => true,
    }
}

/// With a writable root and an empty bin directory, provisioning takes the
/// tmpfs path: it never issues a module load and never ends with an overlay.
pub proof fn lemma_writable_root_uses_tmpfs(ctx: BootContext, outs: Seq<Outcome>)
    requires
        ctx.facts.root_writable,
        ctx.facts.bin_dir == DirState::Empty,
    ensures
        tmpfs_suffices(ctx.facts),
        forall|k: int|
            0 <= k < run(ctx, outs).len() ==> !issues_module_load(#[trigger] run(ctx, outs)[k]),
        run(ctx, outs).last() != Provision::Provisioned(Strategy::KernelOverlay),
{
    let inv = |x: Provision| on_tmpfs_path(x);
    lemma_trace_keeps(ctx, Provision::initial(ctx), outs, inv);
    lemma_trace_steps(ctx, Provision::initial(ctx), outs);
    let t = run(ctx, outs);
    assert forall|k: int| 0 <= k < t.len() implies !issues_module_load(#[trigger] t[k]) by {
        assert(inv(t[k]));
    }
    assert(inv(t[t.len() - 1]));
}

/// Ranks never grow along a trace.
proof fn lemma_rank_monotone(ctx: BootContext, s: Provision, outs: Seq<Outcome>, j: int, k: int)
    requires
        0 <= j <= k < trace(ctx, s, outs).len(),
    ensures
        trace(ctx, s, outs)[j].rank() >= trace(ctx, s, outs)[k].rank(),
    decreases k - j,
{
    if j < k {
        lemma_rank_monotone(ctx, s, outs, j, k - 1);
        lemma_trace_steps(ctx, s, outs);
        let t = trace(ctx, s, outs);
        lemma_rank_decreases(ctx, t[k - 1], outs[k - 1]);
    }
}

/// With a read-only root and a bin directory that has entries, provisioning
/// takes the overlay path; a failed module load leads straight to `Failed`,
/// and no overlay mount was issued in that run.
pub proof fn lemma_read_only_root_uses_overlay(ctx: BootContext, outs: Seq<Outcome>, k: int)
    requires
        !ctx.facts.root_writable,
        ctx.facts.bin_dir == DirState::NonEmpty,
        0 <= k < run(ctx, outs).len() - 1,
        issues_module_load(run(ctx, outs)[k]),
        !outs[k].succeeded(),
    ensures
        !tmpfs_suffices(ctx.facts),
        forall|i: int| 0 <= i < run(ctx, outs).len() ==> on_overlay_path(#[trigger] run(ctx, outs)[i]),
        run(ctx, outs)[k + 1] == Provision::Failed,
        run(ctx, outs).len() == k + 2,
        forall|j: int|
            0 <= j < run(ctx, outs).len() ==> !issues_overlay_mount(#[trigger] run(ctx, outs)[j]),
{
    let s0 = Provision::initial(ctx);
    let inv = |x: Provision| on_overlay_path(x);
    lemma_trace_keeps(ctx, s0, outs, inv);
    lemma_trace_steps(ctx, s0, outs);
    let t = run(ctx, outs);
    assert forall|i: int| 0 <= i < t.len() implies on_overlay_path(#[trigger] t[i]) by {
        assert(inv(t[i]));
    }
    assert(t[k + 1] == t[k].next(ctx, outs[k]));
    if t.len() > k + 2 {
        assert(!t[k + 1].is_terminal());
    }
    assert forall|j: int| 0 <= j < t.len() implies !issues_overlay_mount(#[trigger] t[j]) by {
        if j <= k {
            lemma_rank_monotone(ctx, s0, outs, j, k);
        }
    }
}

/// With a read-only root and a bin directory that has entries, a run that
/// provisions ends with an overlay, and its last states are, in order: the
/// release read, both module loads, the upper and work directories, the
/// permission copy, the overlay mount, and the mode helper's write, run and
/// removal.
pub proof fn lemma_overlay_success_sequence(ctx: BootContext, outs: Seq<Outcome>)
    requires
        !ctx.facts.root_writable,
        ctx.facts.bin_dir == DirState::NonEmpty,
        run(ctx, outs).last() is Provisioned,
    ensures
        run(ctx, outs).len() >= 11,
        run(ctx, outs).last() == Provision::Provisioned(Strategy::KernelOverlay),
        run(ctx, outs)[run(ctx, outs).len() - 2] == Provision::RemovingHelper,
        run(ctx, outs)[run(ctx, outs).len() - 3] == Provision::RunningHelper,
        run(ctx, outs)[run(ctx, outs).len() - 4] == Provision::WritingHelper,
        run(ctx, outs)[run(ctx, outs).len() - 5] == Provision::MountingOverlay,
        run(ctx, outs)[run(ctx, outs).len() - 6] == Provision::CloningPerms,
        run(ctx, outs)[run(ctx, outs).len() - 7] == Provision::CreatingWork,
        run(ctx, outs)[run(ctx, outs).len() - 8] == Provision::CreatingUpper,
        run(ctx, outs)[run(ctx, outs).len() - 9] is LoadingOverlayfs,
        run(ctx, outs)[run(ctx, outs).len() - 10] is LoadingExportfs,
        run(ctx, outs)[run(ctx, outs).len() - 11] == Provision::ReadingRelease,
{
    let s0 = Provision::initial(ctx);
    let inv = |x: Provision| on_overlay_path(x);
    lemma_trace_keeps(ctx, s0, outs, inv);
    lemma_trace_steps(ctx, s0, outs);
    let t = run(ctx, outs);
    let n = t.len() as int;
    assert(inv(t[n - 1]));
    assert(!(s0 is Provisioned));
    assert(n >= 2);
    assert(t[n - 1] == t[n - 2].next(ctx, outs[n - 2]));
    assert(inv(t[n - 2]));
    assert(t[n - 2] == Provision::RemovingHelper);
    assert(n >= 3);
    assert(t[n - 2] == t[n - 3].next(ctx, outs[n - 3]));
    assert(inv(t[n - 3]));
    assert(t[n - 3] == Provision::RunningHelper);
    assert(n >= 4);
    assert(t[n - 3] == t[n - 4].next(ctx, outs[n - 4]));
    assert(inv(t[n - 4]));
    assert(t[n - 4] == Provision::WritingHelper);
    assert(n >= 5);
    assert(t[n - 4] == t[n - 5].next(ctx, outs[n - 5]));
    assert(inv(t[n - 5]));
    assert(t[n - 5] == Provision::MountingOverlay);
    assert(n >= 6);
    assert(t[n - 5] == t[n - 6].next(ctx, outs[n - 6]));
    assert(inv(t[n - 6]));
    assert(t[n - 6] == Provision::CloningPerms);
    assert(n >= 7);
    assert(t[n - 6] == t[n - 7].next(ctx, outs[n - 7]));
    assert(inv(t[n - 7]));
    assert(t[n - 7] == Provision::CreatingWork);
    assert(n >= 8);
    assert(t[n - 7] == t[n - 8].next(ctx, outs[n - 8]));
    assert(inv(t[n - 8]));
    assert(t[n - 8] == Provision::CreatingUpper);
    assert(n >= 9);
    assert(t[n - 8] == t[n - 9].next(ctx, outs[n - 9]));
    assert(inv(t[n - 9]));
    assert(t[n - 9] is LoadingOverlayfs);
    assert(n >= 10);
    assert(t[n - 9] == t[n - 10].next(ctx, outs[n - 10]));
    assert(inv(t[n - 10]));
    assert(t[n - 10] is LoadingExportfs);
    assert(n >= 11);
    assert(t[n - 10] == t[n - 11].next(ctx, outs[n - 11]));
    assert(inv(t[n - 11]));
    assert(t[n - 11] == Provision::ReadingRelease);
}

} // verus!
