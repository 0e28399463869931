//! The state machine that fills the writable bin directory: mirrors, the
//! service definition, the daemon, its applet links, hook directories and the
//! companion package.
use vstd::prelude::*;
use crate::action::{Action, ActionView, Asset, AssetSpec, AssetSpecView, FsKind, Outcome, view_of};
use crate::classify::{BootContext, binary_for};
use crate::layout::{APPLET_COUNT, SCRATCH_BIN, BINARY_NAME, BINARY_PLACEHOLDER, BIN_MODE, DAEMON_CONFIG, DATA,
    DATA_MIRROR, FIRST_STAGE_VAR, HOOK_MODULES, HOOK_POST_FS_DATA, HOOK_SERVICE, LOCAL_BINARY,
    LOCAL_PACKAGE, MARKER_ON, MODULES_MIRROR, PACKAGE, PACKAGE_ID, PACKAGE_REGISTRY, ROOT,
    SERVICE_DEF, SERVICE_DEF_MODE, SERVICE_DEF_STAGING, STANDALONE_VAR, SU_NAME, SYSTEM,
    SYSTEM_MIRROR, SYSTEM_SU, XBIN_SU, applet, applet_name, child, join, owned};
use crate::provision::{BinDirectory, Strategy, mount, mount_view, strategy_dir};
use crate::text::{contains, contains_text, lemma_no_placeholder_left, replace_all, substitute};

verus! {

/// The installer's states. Each non-final state stands for the action it has
/// issued and waits on; indexed states count through a fixed list.
#[derive(Debug)]
pub enum Install {
    ExportingFirstStage,
    ExportingStandalone,
    /// The daemon's module directory, then the data and system mirrors.
    CreatingLayoutDir(usize),
    /// The system partition, then the data partition.
    BindingMirror(usize),
    RemountingRoot,
    WritingServiceDef,
    BindingServiceDef,
    ReadingServiceDef,
    /// `template` is the service definition as read.
    RewritingServiceDef { template: String },
    WritingDaemonConfig,
    InstallingBinary,
    ProbingApplet(usize),
    LinkingApplet(usize),
    CreatingHookDir(usize),
    ReadingRegistry,
    InstallingPackage,
    /// A dedicated bin directory takes over the system's su binaries:
    /// `/system/bin/su`, then `/system/xbin/su`.
    ProbingSuBinary(usize),
    BindingSuBinary(usize),
    /// A dedicated bin directory is made accessible to everyone.
    SettingBinMode,
    Installed,
    Failed,
}

/// The daemon binary's path in the bin directory `bin`.
pub open spec fn binary_path(bin: Seq<char>) -> Seq<char> {
    child(bin, BINARY_NAME@)
}

/// The path of applet `i` in the bin directory `bin`.
pub open spec fn applet_link(bin: Seq<char>, i: int) -> Seq<char> {
    child(bin, applet_name(i))
}

pub open spec fn layout_dir(i: int) -> Seq<char> {
    if i == 0 {
        MODULES_MIRROR@
    } else if i == 1 {
        DATA_MIRROR@
    } else {
        SYSTEM_MIRROR@
    }
}

pub open spec fn hook_dir(i: int) -> Seq<char> {
    if i == 0 {
        HOOK_MODULES@
    } else if i == 1 {
        HOOK_POST_FS_DATA@
    } else {
        HOOK_SERVICE@
    }
}

/// The partition bound onto mirror `i`.
pub open spec fn mirror_source(i: int) -> Seq<char> {
    if i == 0 {
        SYSTEM@
    } else {
        DATA@
    }
}

/// The mirror directory, relative to the bin directory, for mirror `i`.
pub open spec fn mirror_dir(i: int) -> Seq<char> {
    if i == 0 {
        SYSTEM_MIRROR@
    } else {
        DATA_MIRROR@
    }
}

/// The service definition with the binary's real path put in for the placeholder.
pub open spec fn service_def_text(template: Seq<char>, bin: Seq<char>) -> Seq<char> {
    replace_all(template, BINARY_PLACEHOLDER@, binary_path(bin))
}

/// Where applet linking goes after applet `i`.
pub open spec fn after_applet(i: usize) -> Install {
    if i < APPLET_COUNT - 1 {
        Install::ProbingApplet((i + 1) as usize)
    } else {
        Install::CreatingHookDir(0)
    }
}

/// The system su binary that su binding `i` covers.
pub open spec fn su_target(i: int) -> Seq<char> {
    if i == 0 {
        SYSTEM_SU@
    } else {
        XBIN_SU@
    }
}

/// Where installation goes once the companion package is handled: a dedicated
/// bin directory still takes over the system's su binaries.
pub open spec fn after_package(st: Strategy) -> Install {
    if st == Strategy::KernelOverlay {
        Install::Installed
    } else {
        Install::ProbingSuBinary(0)
    }
}

/// Where installation goes after su binding `i`.
pub open spec fn after_su(i: usize) -> Install {
    if i < 1 {
        Install::ProbingSuBinary((i + 1) as usize)
    } else {
        Install::SettingBinMode
    }
}

impl Install {
    pub open spec fn is_terminal(&self) -> bool {
        self is Installed || self is Failed
    }

    /// The state after this one, given the outcome of its action, for a
    /// bin directory made by `st`. Final states stay as they are.
    pub open spec fn next(self, ctx: BootContext, st: Strategy, o: Outcome) -> Install {
        let ok = o.succeeded();
        match self {
            Install::ExportingFirstStage => Install::ExportingStandalone,
            Install::ExportingStandalone => Install::CreatingLayoutDir(0),
            Install::CreatingLayoutDir(i) => if i < 2 {
                Install::CreatingLayoutDir((i + 1) as usize)
            } else {
                Install::BindingMirror(0)
            },
            Install::BindingMirror(i) => if i < 1 {
                Install::BindingMirror((i + 1) as usize)
            } else {
                Install::RemountingRoot
            },
            Install::RemountingRoot => Install::WritingServiceDef,
            Install::WritingServiceDef => if !ok {
                Install::Failed
            } else if ctx.facts.root_writable {
                Install::ReadingServiceDef
            } else {
                Install::BindingServiceDef
            },
            Install::BindingServiceDef => if ok {
                Install::ReadingServiceDef
            } else {
                Install::Failed
            },
            Install::ReadingServiceDef => match o {
                Outcome::Text(template) => Install::RewritingServiceDef { template },
                _ => Install::Failed,
            },
            Install::RewritingServiceDef { .. } => if ok {
                Install::WritingDaemonConfig
            } else {
                Install::Failed
            },
            Install::WritingDaemonConfig => if ok {
                Install::InstallingBinary
            } else {
                Install::Failed
            },
            Install::InstallingBinary => if ok {
                Install::ProbingApplet(0)
            } else {
                Install::Failed
            },
            Install::ProbingApplet(i) => if o.found() {
                after_applet(i)
            } else {
                Install::LinkingApplet(i)
            },
            Install::LinkingApplet(i) => if ok {
                after_applet(i)
            } else {
                Install::Failed
            },
            Install::CreatingHookDir(i) => if i < 2 {
                Install::CreatingHookDir((i + 1) as usize)
            } else {
                Install::ReadingRegistry
            },
            Install::ReadingRegistry => match o {
                Outcome::Text(registry) => if contains(registry@, PACKAGE_ID@) {
                    after_package(st)
                } else {
                    Install::InstallingPackage
                },
                _ => Install::InstallingPackage,
            },
            Install::InstallingPackage => if ok {
                after_package(st)
            } else {
                Install::Failed
            },
            Install::ProbingSuBinary(i) => if o.found() {
                Install::BindingSuBinary(i)
            } else {
                after_su(i)
            },
            Install::BindingSuBinary(i) => after_su(i),
            Install::SettingBinMode => if ok {
                Install::Installed
            } else {
                Install::Failed
            },
            Install::Installed => Install::Installed,
            Install::Failed => Install::Failed,
        }
    }

    /// The action a state issues for a bin directory made by `st`; final
    /// states issue none.
    pub open spec fn action_of(&self, ctx: BootContext, st: Strategy) -> Option<ActionView> {
        let bin = strategy_dir(st);
        match self {
            Install::ExportingFirstStage => Some(
                ActionView::SetEnv { key: FIRST_STAGE_VAR@, value: MARKER_ON@ },
            ),
            Install::ExportingStandalone => Some(
                ActionView::SetEnv { key: STANDALONE_VAR@, value: MARKER_ON@ },
            ),
            Install::CreatingLayoutDir(i) => Some(
                ActionView::CreateDirAll(child(bin, layout_dir(*i as int))),
            ),
            Install::BindingMirror(i) => Some(
                mount_view(
                    mirror_source(*i as int),
                    child(bin, mirror_dir(*i as int)),
                    FsKind::Bind,
                ),
            ),
            Install::RemountingRoot => Some(mount_view(ROOT@, ROOT@, FsKind::Remount)),
            Install::WritingServiceDef => Some(
                if ctx.facts.root_writable {
                    ActionView::Extract(
                        AssetSpecView {
                            destination: SERVICE_DEF@,
                            asset: Asset::ServiceDefinition,
                            mode: SERVICE_DEF_MODE,
                        },
                    )
                } else {
                    ActionView::Extract(
                        AssetSpecView {
                            destination: SERVICE_DEF_STAGING@,
                            asset: Asset::MinimalServiceDefinition,
                            mode: SERVICE_DEF_MODE,
                        },
                    )
                },
            ),
            Install::BindingServiceDef => Some(
                mount_view(SERVICE_DEF_STAGING@, SERVICE_DEF@, FsKind::Bind),
            ),
            Install::ReadingServiceDef => Some(ActionView::ReadText(SERVICE_DEF@)),
            Install::RewritingServiceDef { template } => Some(
                ActionView::WriteText {
                    path: SERVICE_DEF@,
                    contents: service_def_text(template@, bin),
                },
            ),
            Install::WritingDaemonConfig => Some(
                ActionView::Extract(
                    AssetSpecView {
                        destination: child(bin, DAEMON_CONFIG@),
                        asset: Asset::DaemonConfig,
                        mode: BIN_MODE,
                    },
                ),
            ),
            Install::InstallingBinary => Some(
                if ctx.facts.local_binary_present {
                    ActionView::CopyFile { from: LOCAL_BINARY@, to: binary_path(bin) }
                } else {
                    ActionView::Extract(
                        AssetSpecView {
                            destination: binary_path(bin),
                            asset: binary_for(ctx.facts),
                            mode: BIN_MODE,
                        },
                    )
                },
            ),
            Install::ProbingApplet(i) => Some(ActionView::ProbeExists(applet_link(bin, *i as int))),
            Install::LinkingApplet(i) => Some(
                ActionView::Symlink { target: binary_path(bin), link: applet_link(bin, *i as int) },
            ),
            Install::CreatingHookDir(i) => Some(ActionView::CreateDirAll(hook_dir(*i as int))),
            Install::ReadingRegistry => Some(ActionView::ReadText(PACKAGE_REGISTRY@)),
            Install::InstallingPackage => Some(
                if ctx.facts.local_package_present {
                    ActionView::CopyFile { from: LOCAL_PACKAGE@, to: PACKAGE@ }
                } else {
                    ActionView::Extract(
                        AssetSpecView {
                            destination: PACKAGE@,
                            asset: Asset::CompanionPackage,
                            mode: BIN_MODE,
                        },
                    )
                },
            ),
            Install::ProbingSuBinary(i) => Some(ActionView::ProbeExists(su_target(*i as int))),
            Install::BindingSuBinary(i) => Some(
                mount_view(child(bin, SU_NAME@), su_target(*i as int), FsKind::Bind),
            ),
            Install::SettingBinMode => Some(ActionView::SetMode { path: bin, mode: BIN_MODE }),
            Install::Installed => None,
            Install::Failed => None,
        }
    }

    /// An upper bound on the number of steps left before a final state.
    pub open spec fn rank(&self) -> nat {
        match self {
            Install::ExportingFirstStage => 32,
            Install::ExportingStandalone => 31,
            Install::CreatingLayoutDir(i) => 28 + if *i < 2 {
                (2 - *i) as nat
            } else {
                0
            },
            Install::BindingMirror(i) => if *i < 1 {
                27
            } else {
                26
            },
            Install::RemountingRoot => 25,
            Install::WritingServiceDef => 24,
            Install::BindingServiceDef => 23,
            Install::ReadingServiceDef => 22,
            Install::RewritingServiceDef { .. } => 21,
            Install::WritingDaemonConfig => 20,
            Install::InstallingBinary => 19,
            Install::ProbingApplet(i) => 12 + 2 * if *i < 3 {
                (3 - *i) as nat
            } else {
                0
            },
            Install::LinkingApplet(i) => 11 + 2 * if *i < 3 {
                (3 - *i) as nat
            } else {
                0
            },
            Install::CreatingHookDir(i) => 8 + if *i < 2 {
                (2 - *i) as nat
            } else {
                0
            },
            Install::ReadingRegistry => 7,
            Install::InstallingPackage => 6,
            Install::ProbingSuBinary(i) => if *i < 1 {
                5
            } else {
                3
            },
            Install::BindingSuBinary(i) => if *i < 1 {
                4
            } else {
                2
            },
            Install::SettingBinMode => 1,
            Install::Installed => 0,
            Install::Failed => 0,
        }
    }

    /// The state installation begins in.
    pub fn start() -> (r: Install)
        ensures
            r == Install::ExportingFirstStage,
    {
        Install::ExportingFirstStage
    }

    /// Whether installation has ended, one way or the other.
    pub fn is_done(&self) -> (r: bool)
        ensures
            r == self.is_terminal(),
    {
        match self {
            Install::Installed | Install::Failed => true,
            _ => false,
        }
    }

    /// Moves on from this state with the outcome of its action.
    pub fn step(self, ctx: &BootContext, st: Strategy, o: Outcome) -> (r: Install)
        ensures
            r == self.next(*ctx, st, o),
    {
        let ok = o.is_done();
        match self {
            Install::ExportingFirstStage => Install::ExportingStandalone,
            Install::ExportingStandalone => Install::CreatingLayoutDir(0),
            Install::CreatingLayoutDir(i) => if i < 2 {
                Install::CreatingLayoutDir(i + 1)
            } else {
                Install::BindingMirror(0)
            },
            Install::BindingMirror(i) => if i < 1 {
                Install::BindingMirror(i + 1)
            } else {
                Install::RemountingRoot
            },
            Install::RemountingRoot => Install::WritingServiceDef,
            Install::WritingServiceDef => if !ok {
                Install::Failed
            } else if ctx.facts.root_writable {
                Install::ReadingServiceDef
            } else {
                Install::BindingServiceDef
            },
            Install::BindingServiceDef => if ok {
                Install::ReadingServiceDef
            } else {
                Install::Failed
            },
            Install::ReadingServiceDef => match o {
                Outcome::Text(template) => Install::RewritingServiceDef { template },
                _ => Install::Failed,
            },
            Install::RewritingServiceDef { .. } => if ok {
                Install::WritingDaemonConfig
            } else {
                Install::Failed
            },
            Install::WritingDaemonConfig => if ok {
                Install::InstallingBinary
            } else {
                Install::Failed
            },
            Install::InstallingBinary => if ok {
                Install::ProbingApplet(0)
            } else {
                Install::Failed
            },
            Install::ProbingApplet(i) => if o.is_found() {
                next_applet(i)
            } else {
                Install::LinkingApplet(i)
            },
            Install::LinkingApplet(i) => if ok {
                next_applet(i)
            } else {
                Install::Failed
            },
            Install::CreatingHookDir(i) => if i < 2 {
                Install::CreatingHookDir(i + 1)
            } else {
                Install::ReadingRegistry
            },
            Install::ReadingRegistry => match o {
                Outcome::Text(registry) => if contains_text(registry.as_str(), PACKAGE_ID) {
                    package_done(st)
                } else {
                    Install::InstallingPackage
                },
                _ => Install::InstallingPackage,
            },
            Install::InstallingPackage => if ok {
                package_done(st)
            } else {
                Install::Failed
            },
            Install::ProbingSuBinary(i) => if o.is_found() {
                Install::BindingSuBinary(i)
            } else {
                next_su(i)
            },
            Install::BindingSuBinary(i) => next_su(i),
            Install::SettingBinMode => if ok {
                Install::Installed
            } else {
                Install::Failed
            },
            Install::Installed => Install::Installed,
            Install::Failed => Install::Failed,
        }
    }

    /// The action this state issues into `bin`, or `None` in a final state.
    pub fn action(&self, ctx: &BootContext, bin: &BinDirectory) -> (r: Option<Action>)
        requires
            bin.path@ == strategy_dir(bin.strategy),
        ensures
            view_of(r) == self.action_of(*ctx, bin.strategy),
    {
        let dir = bin.path.as_str();
        match self {
            Install::ExportingFirstStage => Some(
                Action::SetEnv { key: owned(FIRST_STAGE_VAR), value: owned(MARKER_ON) },
            ),
            Install::ExportingStandalone => Some(
                Action::SetEnv { key: owned(STANDALONE_VAR), value: owned(MARKER_ON) },
            ),
            Install::CreatingLayoutDir(i) => {
                let rel = if *i == 0 {
                    MODULES_MIRROR
                } else if *i == 1 {
                    DATA_MIRROR
                } else {
                    SYSTEM_MIRROR
                };
                Some(Action::CreateDirAll(join(dir, rel)))
            },
            Install::BindingMirror(i) => {
                let (source, rel) = if *i == 0 {
                    (SYSTEM, SYSTEM_MIRROR)
                } else {
                    (DATA, DATA_MIRROR)
                };
                let target = join(dir, rel);
                Some(mount(source, target.as_str(), FsKind::Bind))
            },
            Install::RemountingRoot => Some(mount(ROOT, ROOT, FsKind::Remount)),
            Install::WritingServiceDef => {
                let (destination, asset) = if ctx.facts.root_writable {
                    (SERVICE_DEF, Asset::ServiceDefinition)
                } else {
                    (SERVICE_DEF_STAGING, Asset::MinimalServiceDefinition)
                };
                Some(
                    Action::Extract(
                        AssetSpec { destination: owned(destination), asset, mode: SERVICE_DEF_MODE },
                    ),
                )
            },
            Install::BindingServiceDef => Some(mount(SERVICE_DEF_STAGING, SERVICE_DEF, FsKind::Bind)),
            Install::ReadingServiceDef => Some(Action::ReadText(owned(SERVICE_DEF))),
            Install::RewritingServiceDef { template } => {
                let binary = join(dir, BINARY_NAME);
                let contents = substitute(template.as_str(), BINARY_PLACEHOLDER, binary.as_str());
                Some(Action::WriteText { path: owned(SERVICE_DEF), contents })
            },
            Install::WritingDaemonConfig => Some(
                Action::Extract(
                    AssetSpec {
                        destination: join(dir, DAEMON_CONFIG),
                        asset: Asset::DaemonConfig,
                        mode: BIN_MODE,
                    },
                ),
            ),
            Install::InstallingBinary => {
                let binary = join(dir, BINARY_NAME);
                if ctx.facts.local_binary_present {
                    Some(Action::CopyFile { from: owned(LOCAL_BINARY), to: binary })
                } else {
                    Some(
                        Action::Extract(
                            AssetSpec {
                                destination: binary,
                                asset: ctx.binary_asset(),
                                mode: BIN_MODE,
                            },
                        ),
                    )
                }
            },
            Install::ProbingApplet(i) => Some(Action::ProbeExists(join(dir, applet(*i)))),
            Install::LinkingApplet(i) => Some(
                Action::Symlink { target: join(dir, BINARY_NAME), link: join(dir, applet(*i)) },
            ),
            Install::CreatingHookDir(i) => {
                let path = if *i == 0 {
                    HOOK_MODULES
                } else if *i == 1 {
                    HOOK_POST_FS_DATA
                } else {
                    HOOK_SERVICE
                };
                Some(Action::CreateDirAll(owned(path)))
            },
            Install::ReadingRegistry => Some(Action::ReadText(owned(PACKAGE_REGISTRY))),
            Install::InstallingPackage => {
                if ctx.facts.local_package_present {
                    Some(Action::CopyFile { from: owned(LOCAL_PACKAGE), to: owned(PACKAGE) })
                } else {
                    Some(
                        Action::Extract(
                            AssetSpec {
                                destination: owned(PACKAGE),
                                asset: Asset::CompanionPackage,
                                mode: BIN_MODE,
                            },
                        ),
                    )
                }
            },
            Install::ProbingSuBinary(i) => Some(
                Action::ProbeExists(owned(if *i == 0 { SYSTEM_SU } else { XBIN_SU })),
            ),
            Install::BindingSuBinary(i) => {
                let source = join(dir, SU_NAME);
                Some(mount(source.as_str(), if *i == 0 { SYSTEM_SU } else { XBIN_SU }, FsKind::Bind))
            },
            Install::SettingBinMode => Some(Action::SetMode { path: owned(dir), mode: BIN_MODE }),
            Install::Installed => None,
            Install::Failed => None,
        }
    }
}

fn package_done(st: Strategy) -> (r: Install)
    ensures
        r == after_package(st),
{
    if st == Strategy::KernelOverlay {
        Install::Installed
    } else {
        Install::ProbingSuBinary(0)
    }
}

fn next_su(i: usize) -> (r: Install)
    ensures
        r == after_su(i),
{
    if i < 1 {
        Install::ProbingSuBinary(i + 1)
    } else {
        Install::SettingBinMode
    }
}

fn next_applet(i: usize) -> (r: Install)
    ensures
        r == after_applet(i),
{
    if i < APPLET_COUNT - 1 {
        Install::ProbingApplet(i + 1)
    } else {
        Install::CreatingHookDir(0)
    }
}

/// Every step out of a non-final state lowers the rank.
pub proof fn lemma_install_rank_decreases(ctx: BootContext, st: Strategy, s: Install, o: Outcome)
    ensures
        !s.is_terminal() ==> s.next(ctx, st, o).rank() < s.rank(),
        s.is_terminal() <==> s.rank() == 0,
{
}

/// A filesystem as far as applet linking sees it: each present path, mapped to
/// its link target when it is a symbolic link.
pub type FsModel = Map<Seq<char>, Option<Seq<char>>>;

/// `fs` after the runner performed `a`, for the actions of applet linking.
pub open spec fn apply_link(fs: FsModel, a: Option<ActionView>) -> FsModel {
    match a {
        Some(ActionView::Symlink { target, link }) => fs.insert(link, Some(target)),
        _ => fs,
    }
}

/// The outcome a truthful runner reports for `a` on `fs`.
pub open spec fn probe_answer(fs: FsModel, a: Option<ActionView>) -> Outcome {
    match a {
        Some(ActionView::ProbeExists(p)) => Outcome::Flag(fs.dom().contains(p)),
        _ => Outcome::Done,
    }
}

/// The state after probing applet `i` on `fs`.
pub open spec fn probed(ctx: BootContext, st: Strategy, fs: FsModel, i: nat) -> Install {
    let probe = Install::ProbingApplet(i as usize);
    probe.next(ctx, st, probe_answer(fs, probe.action_of(ctx, st)))
}

/// The applet-linking step from applet `i` on: each applet is probed and, when
/// absent, linked to the binary. Gives the resulting filesystem.
pub open spec fn link_applets_from(ctx: BootContext, st: Strategy, fs: FsModel, i: nat) -> FsModel
    decreases APPLET_COUNT - i,
{
    if i >= APPLET_COUNT {
        fs
    } else {
        let s = probed(ctx, st, fs, i);
        let fs2 = if s is LinkingApplet {
            apply_link(fs, s.action_of(ctx, st))
        } else {
            fs
        };
        link_applets_from(ctx, st, fs2, i + 1)
    }
}

/// How many links the applet-linking step from applet `i` on creates on `fs`.
pub open spec fn links_made_from(ctx: BootContext, st: Strategy, fs: FsModel, i: nat) -> nat
    decreases APPLET_COUNT - i,
{
    if i >= APPLET_COUNT {
        0
    } else {
        let s = probed(ctx, st, fs, i);
        if s is LinkingApplet {
            1 + links_made_from(ctx, st, apply_link(fs, s.action_of(ctx, st)), i + 1)
        } else {
            links_made_from(ctx, st, fs, i + 1)
        }
    }
}

proof fn lemma_links_present(ctx: BootContext, st: Strategy, fs: FsModel, i: nat)
    requires
        i <= APPLET_COUNT,
    ensures
        forall|p: Seq<char>|
            fs.dom().contains(p) ==> #[trigger] link_applets_from(ctx, st, fs, i).dom().contains(p),
        forall|j: int|
            i <= j < APPLET_COUNT ==> link_applets_from(ctx, st, fs, i).dom().contains(
                #[trigger] applet_link(strategy_dir(st), j),
            ),
    decreases APPLET_COUNT - i,
{
    if i < APPLET_COUNT {
        let s = probed(ctx, st, fs, i);
        let fs2 = if s is LinkingApplet {
            apply_link(fs, s.action_of(ctx, st))
        } else {
            fs
        };
        assert(fs2.dom().contains(applet_link(strategy_dir(st), i as int)));
        assert(forall|p: Seq<char>| fs.dom().contains(p) ==> #[trigger] fs2.dom().contains(p));
        lemma_links_present(ctx, st, fs2, i + 1);
        let r = link_applets_from(ctx, st, fs, i);
        assert(r == link_applets_from(ctx, st, fs2, i + 1));
        assert forall|j: int| i <= j < APPLET_COUNT implies r.dom().contains(
            #[trigger] applet_link(strategy_dir(st), j),
        ) by {
            if j == i {
                assert(fs2.dom().contains(applet_link(strategy_dir(st), j)));
            }
        }
    }
}

proof fn lemma_links_settled(ctx: BootContext, st: Strategy, fs: FsModel, i: nat)
    requires
        i <= APPLET_COUNT,
        forall|j: int|
            i <= j < APPLET_COUNT ==> fs.dom().contains(#[trigger] applet_link(strategy_dir(st), j)),
    ensures
        link_applets_from(ctx, st, fs, i) == fs,
        links_made_from(ctx, st, fs, i) == 0,
    decreases APPLET_COUNT - i,
{
    if i < APPLET_COUNT {
        assert(fs.dom().contains(applet_link(strategy_dir(st), i as int)));
        lemma_links_settled(ctx, st, fs, i + 1);
    }
}

/// Linking the applets twice leaves the filesystem as linking them once, and
/// the second time creates no link.
pub proof fn lemma_link_applets_idempotent(ctx: BootContext, st: Strategy, fs: FsModel)
    ensures
        link_applets_from(ctx, st, link_applets_from(ctx, st, fs, 0), 0) == link_applets_from(
            ctx,
            st,
            fs,
            0,
        ),
        links_made_from(ctx, st, link_applets_from(ctx, st, fs, 0), 0) == 0,
{
    lemma_links_present(ctx, st, fs, 0);
    lemma_links_settled(ctx, st, link_applets_from(ctx, st, fs, 0), 0);
}

/// With the binary at `/sbin/magisk`, the written service definition holds no
/// placeholder, unless the template had the placeholder followed by
/// `_bin_path`: the `magisk` that ends the path would then start a new one.
pub proof fn lemma_service_def_has_no_placeholder(template: Seq<char>)
    requires
        !contains(template, BINARY_PLACEHOLDER@ + "_bin_path"@),
    ensures
        !contains(service_def_text(template, SCRATCH_BIN@), BINARY_PLACEHOLDER@),
{
    reveal_strlit("magisk_bin_path");
    reveal_strlit("_bin_path");
    reveal_strlit("/sbin");
    reveal_strlit("magisk");
    let pat = BINARY_PLACEHOLDER@;
    let rep = binary_path(SCRATCH_BIN@);
    assert(rep.len() == 12);
    assert(pat.subrange(6, 15) =~= "_bin_path"@);
    assert(rep.subrange(6, 12) =~= pat.subrange(0, 6));
    assert forall|i: int| 0 <= i < pat.len() implies pat[i] != rep[0] by {}
    assert forall|k: int| 0 <= k < rep.len() && k != 6 implies rep[k] != pat[0] by {}
    lemma_no_placeholder_left(template, pat, rep, 6);
}

} // verus!
