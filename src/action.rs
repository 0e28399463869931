//! The operations the boot logic asks its runner to perform, and the outcomes
//! the runner reports back.
use vstd::prelude::*;

verus! {

/// The filesystem type and flags of a plain mount.
#[derive(Clone, Copy, Debug, PartialEq, Eq, Structural)]
pub enum FsKind {
    /// `proc`, no flags.
    Proc,
    /// `tmpfs`, no flags.
    Tmpfs,
    /// A bind mount of `source` onto `target`.
    Bind,
    /// A remount of `target` with its current options.
    Remount,
}

/// One mount operation: `source` mounted on `target` as `kind`.
#[derive(Debug)]
pub struct MountSpec {
    pub source: String,
    pub target: String,
    pub kind: FsKind,
}

/// The opaque payloads the runner embeds; the logic only decides which one
/// goes where.
#[derive(Clone, Copy, Debug, PartialEq, Eq, Structural)]
pub enum Asset {
    /// The helper that sets a directory's mode.
    ModeHelper,
    /// The full service definition, for a writable root.
    ServiceDefinition,
    /// The reduced service definition, for a read-only root.
    MinimalServiceDefinition,
    /// The daemon's configuration file.
    DaemonConfig,
    /// The daemon binary for 32-bit systems.
    Binary32,
    /// The daemon binary for 64-bit systems.
    Binary64,
    /// The companion application package.
    CompanionPackage,
}

/// One file extraction: `asset` written to `destination`, then given `mode`.
#[derive(Debug)]
pub struct AssetSpec {
    pub destination: String,
    pub asset: Asset,
    pub mode: u32,
}

/// An operation for the runner. Each is performed once, in the order the
/// state machines issue them.
#[derive(Debug)]
pub enum Action {
    Mount(MountSpec),
    /// An overlay of `upper` over `lower`, using `work`, mounted on `target`.
    MountOverlay { lower: String, upper: String, work: String, target: String },
    /// A lazy (detaching) unmount.
    Unmount(String),
    CreateDir(String),
    CreateDirAll(String),
    /// Reports `Done` when the directory accepts a file, `Failed` otherwise.
    ProbeWritable(String),
    /// Reports `Flag(true)` when the path exists.
    ProbeExists(String),
    /// Reports `Text` with the file's contents.
    ReadText(String),
    WriteText { path: String, contents: String },
    Extract(AssetSpec),
    CopyFile { from: String, to: String },
    /// Gives `to` the permission bits of `from`.
    ClonePerms { from: String, to: String },
    LoadModule(String),
    /// Runs the extracted mode helper to give `target` the mode `mode`.
    RunModeHelper { helper: String, mode: u32, target: String },
    RemoveFile(String),
    /// Gives `path` the permission bits `mode`.
    SetMode { path: String, mode: u32 },
    /// Creates `link` pointing at `target`.
    Symlink { target: String, link: String },
    /// Sets a variable in the environment that the next process image inherits.
    SetEnv { key: String, value: String },
    /// Replaces the process image with the executable at the path.
    Exec(String),
    /// Waits the grace period, then ends the process abnormally.
    Abort,
}

/// What the runner reports after performing an action.
#[derive(Debug)]
pub enum Outcome {
    Done,
    Failed,
    Flag(bool),
    Text(String),
}

pub struct MountSpecView {
    pub source: Seq<char>,
    pub target: Seq<char>,
    pub kind: FsKind,
}

pub struct AssetSpecView {
    pub destination: Seq<char>,
    pub asset: Asset,
    pub mode: u32,
}

/// An [`Action`] with its strings seen as character sequences.
pub enum ActionView {
    Mount(MountSpecView),
    MountOverlay { lower: Seq<char>, upper: Seq<char>, work: Seq<char>, target: Seq<char> },
    Unmount(Seq<char>),
    CreateDir(Seq<char>),
    CreateDirAll(Seq<char>),
    ProbeWritable(Seq<char>),
    ProbeExists(Seq<char>),
    ReadText(Seq<char>),
    WriteText { path: Seq<char>, contents: Seq<char> },
    Extract(AssetSpecView),
    CopyFile { from: Seq<char>, to: Seq<char> },
    ClonePerms { from: Seq<char>, to: Seq<char> },
    LoadModule(Seq<char>),
    RunModeHelper { helper: Seq<char>, mode: u32, target: Seq<char> },
    RemoveFile(Seq<char>),
    SetMode { path: Seq<char>, mode: u32 },
    Symlink { target: Seq<char>, link: Seq<char> },
    SetEnv { key: Seq<char>, value: Seq<char> },
    Exec(Seq<char>),
    Abort,
}

impl View for MountSpec {
    type V = MountSpecView;

    open spec fn view(&self) -> MountSpecView {
        MountSpecView { source: self.source@, target: self.target@, kind: self.kind }
    }
}

impl View for AssetSpec {
    type V = AssetSpecView;

    open spec fn view(&self) -> AssetSpecView {
        AssetSpecView { destination: self.destination@, asset: self.asset, mode: self.mode }
    }
}

impl View for Action {
    type V = ActionView;

    open spec fn view(&self) -> ActionView {
        match self {
            Action::Mount(m) => ActionView::Mount(m@),
            Action::MountOverlay { lower, upper, work, target } => ActionView::MountOverlay {
                lower: lower@,
                upper: upper@,
                work: work@,
                target: target@,
            },
            Action::Unmount(p) => ActionView::Unmount(p@),
            Action::CreateDir(p) => ActionView::CreateDir(p@),
            Action::CreateDirAll(p) => ActionView::CreateDirAll(p@),
            Action::ProbeWritable(p) => ActionView::ProbeWritable(p@),
            Action::ProbeExists(p) => ActionView::ProbeExists(p@),
            Action::ReadText(p) => ActionView::ReadText(p@),
            Action::WriteText { path, contents } => ActionView::WriteText {
                path: path@,
                contents: contents@,
            },
            Action::Extract(a) => ActionView::Extract(a@),
            Action::CopyFile { from, to } => ActionView::CopyFile { from: from@, to: to@ },
            Action::ClonePerms { from, to } => ActionView::ClonePerms { from: from@, to: to@ },
            Action::LoadModule(p) => ActionView::LoadModule(p@),
            Action::RunModeHelper { helper, mode, target } => ActionView::RunModeHelper {
                helper: helper@,
                mode: *mode,
                target: target@,
            },
            Action::RemoveFile(p) => ActionView::RemoveFile(p@),
            Action::SetMode { path, mode } => ActionView::SetMode { path: path@, mode: *mode },
            Action::Symlink { target, link } => ActionView::Symlink { target: target@, link: link@ },
            Action::SetEnv { key, value } => ActionView::SetEnv { key: key@, value: value@ },
            Action::Exec(p) => ActionView::Exec(p@),
            Action::Abort => ActionView::Abort,
        }
    }
}

/// The view of an optional action.
pub open spec fn view_of(a: Option<Action>) -> Option<ActionView> {
    match a {
        Some(x) => Some(x@),
        None => None,
    }
}

impl Outcome {
    /// The action completed.
    pub open spec fn succeeded(self) -> bool {
        self is Done
    }

    /// A probe found what it looked for.
    pub open spec fn found(self) -> bool {
        self == Outcome::Flag(true)
    }

    /// Whether the action completed.
    pub fn is_done(&self) -> (r: bool)
        ensures
            r == self.succeeded(),
    {
        match self {
            Outcome::Done => true,
            _ => false,
        }
    }

    /// Whether a probe found what it looked for.
    pub fn is_found(&self) -> (r: bool)
        ensures
            r == self.found(),
    {
        match self {
            Outcome::Flag(b) => *b,
            _ => false,
        }
    }
}

} // verus!
