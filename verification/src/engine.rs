//! The synchronization engine.
//!
//! The engine performs no I/O. It is a state machine: `step` consumes the
//! outcome of the previously issued operation and returns the next operation
//! to perform. A driver loop performs each operation (spawn a hook shell,
//! stat a path, copy a file, list a directory) and feeds the outcome back.
//! Every decision — hook ordering, the path-safety check, the skip of a
//! missing source, the clean-before-copy policy, ignore filtering during the
//! tree walk, and the abort on any failure — is taken here, against the
//! transition function `step_model`, which the executable `step` provably
//! implements.

use vstd::prelude::*;
use crate::config::{App, Config};
use crate::error::{Error, Type};
use crate::globs::{GlobPattern, ignored_by, pat_views};
use crate::paths::{joined, under_root, mapped, parent_dir};

verus! {

/// The two symmetric operations: live to archive, archive to live.
#[derive(Clone, Copy, PartialEq, Eq, Structural, Debug)]
pub enum Direction {
    Backup,
    Setup,
}

/// What a stat found at a path.
#[derive(Clone, Copy, PartialEq, Eq, Structural, Debug)]
pub enum PathKind {
    Missing,
    IsFile,
    IsDir,
}

/// One entry of a directory listing: its bare name and whether it is itself
/// a directory.
#[derive(Debug)]
pub struct DirEntry {
    pub name: String,
    pub is_dir: bool,
}

/// The mathematical value of a directory entry.
#[verifier::ext_equal]
pub struct EntryModel {
    pub name: Seq<char>,
    pub is_dir: bool,
}

impl View for DirEntry {
    type V = EntryModel;

    open spec fn view(&self) -> EntryModel {
        EntryModel { name: self.name@, is_dir: self.is_dir }
    }
}

impl DeepView for DirEntry {
    type V = EntryModel;

    open spec fn deep_view(&self) -> EntryModel {
        self@
    }
}

/// An operation the driver must perform next.
#[derive(Debug)]
pub enum Op {
    /// Nothing to perform; call `step` again with `Event::Completed`.
    Nop,
    /// Run the script in a shell with `BACKUP_DIR` set to the backup
    /// directory, prefixed by `set -ex`.
    RunHook { script: String },
    /// Report what exists at the path.
    Stat { path: String },
    /// Create the directory and its missing parents.
    MkDirAll { path: String },
    /// Remove the file.
    RemoveFile { path: String },
    /// Remove the directory tree.
    RemoveTree { path: String },
    /// Copy one file byte-for-byte, overwriting the destination.
    CopyFile { src: String, dest: String },
    /// List the entries directly inside the directory.
    ReadDir { path: String },
    /// The run finished successfully; the driver stops.
    Done,
    /// The run failed; the driver reports the error and stops.
    Fail { error: Error },
}

/// The mathematical value of an operation.
#[verifier::ext_equal]
pub enum OpModel {
    Nop,
    RunHook { script: Seq<char> },
    Stat { path: Seq<char> },
    MkDirAll { path: Seq<char> },
    RemoveFile { path: Seq<char> },
    RemoveTree { path: Seq<char> },
    CopyFile { src: Seq<char>, dest: Seq<char> },
    ReadDir { path: Seq<char> },
    Done,
    Fail { kind: Type, msg: Seq<char> },
}

impl View for Op {
    type V = OpModel;

    open spec fn view(&self) -> OpModel {
        match self {
            Op::Nop => OpModel::Nop,
            Op::RunHook { script } => OpModel::RunHook { script: script@ },
            Op::Stat { path } => OpModel::Stat { path: path@ },
            Op::MkDirAll { path } => OpModel::MkDirAll { path: path@ },
            Op::RemoveFile { path } => OpModel::RemoveFile { path: path@ },
            Op::RemoveTree { path } => OpModel::RemoveTree { path: path@ },
            Op::CopyFile { src, dest } => OpModel::CopyFile { src: src@, dest: dest@ },
            Op::ReadDir { path } => OpModel::ReadDir { path: path@ },
            Op::Done => OpModel::Done,
            Op::Fail { error } => OpModel::Fail { kind: error.kind, msg: error.msg@ },
        }
    }
}

/// The outcome of the previously issued operation.
#[derive(Debug)]
pub enum Event {
    /// Starts the run; fed to the first call of `step`.
    Start,
    /// The operation succeeded (also the reply to `Nop`).
    Completed,
    /// The hook's shell exited with a non-zero status.
    HookFailed { code: i32 },
    /// The hook's shell could not be spawned or fed; the driver's rendering
    /// of the failure.
    HookError { msg: String },
    /// The reply to `Stat`.
    Found { kind: PathKind },
    /// The reply to `ReadDir`.
    Listing { entries: Vec<DirEntry> },
    /// The operation failed; the driver's rendering of the I/O error.
    IoFailed { msg: String },
}

/// The mathematical value of an event.
#[verifier::ext_equal]
pub enum EventModel {
    Start,
    Completed,
    HookFailed { code: int },
    HookError { msg: Seq<char> },
    Found { kind: PathKind },
    Listing { entries: Seq<EntryModel> },
    IoFailed { msg: Seq<char> },
}

impl View for Event {
    type V = EventModel;

    open spec fn view(&self) -> EventModel {
        match self {
            Event::Start => EventModel::Start,
            Event::Completed => EventModel::Completed,
            Event::HookFailed { code } => EventModel::HookFailed { code: *code as int },
            Event::HookError { msg } => EventModel::HookError { msg: msg@ },
            Event::Found { kind } => EventModel::Found { kind: *kind },
            Event::Listing { entries } => EventModel::Listing { entries: entries.deep_view() },
            Event::IoFailed { msg } => EventModel::IoFailed { msg: msg@ },
        }
    }
}

/// One directory being walked during a tree copy: its source and
/// destination, its listing, and how far the listing has been processed.
#[derive(Debug)]
pub struct Frame {
    pub src: String,
    pub dest: String,
    pub entries: Vec<DirEntry>,
    pub next: usize,
}

/// The mathematical value of a walk frame.
#[verifier::ext_equal]
pub struct FrameModel {
    pub src: Seq<char>,
    pub dest: Seq<char>,
    pub entries: Seq<EntryModel>,
    pub next: int,
}

impl View for Frame {
    type V = FrameModel;

    open spec fn view(&self) -> FrameModel {
        FrameModel {
            src: self.src@,
            dest: self.dest@,
            entries: self.entries.deep_view(),
            next: self.next as int,
        }
    }
}

impl DeepView for Frame {
    type V = FrameModel;

    open spec fn deep_view(&self) -> FrameModel {
        self@
    }
}

/// The mathematical value of an application.
#[verifier::ext_equal]
pub struct AppModel {
    pub name: Seq<char>,
    pub files: Seq<Seq<char>>,
    pub ignore: Seq<Seq<char>>,
    pub pre_backup: Seq<Seq<char>>,
    pub post_backup: Seq<Seq<char>>,
    pub pre_setup: Seq<Seq<char>>,
    pub post_setup: Seq<Seq<char>>,
}

impl View for App {
    type V = AppModel;

    open spec fn view(&self) -> AppModel {
        AppModel {
            name: self.name@,
            files: self.files.deep_view(),
            ignore: pat_views(self.ignore@),
            pre_backup: self.pre_backup.deep_view(),
            post_backup: self.post_backup.deep_view(),
            pre_setup: self.pre_setup.deep_view(),
            post_setup: self.post_setup.deep_view(),
        }
    }
}

impl DeepView for App {
    type V = AppModel;

    open spec fn deep_view(&self) -> AppModel {
        self@
    }
}

/// Where the engine stands: which operation it has issued and is waiting
/// on. `k` is the position in the schedule (the selected names, or all
/// applications when none are selected), `a` the application's index, `f`
/// the index into its file list, `i` the index into a hook list.
#[derive(Debug)]
pub(crate) enum Stage {
    Ready,
    GlobalPre { i: usize },
    PickApp { k: usize },
    AppPre { k: usize, a: usize, i: usize },
    FileCheck { k: usize, a: usize, f: usize },
    FileSrc { k: usize, a: usize, f: usize },
    FileParent { k: usize, a: usize, f: usize, src_dir: bool },
    FileMkParent { k: usize, a: usize, f: usize, src_dir: bool },
    FileDest { k: usize, a: usize, f: usize, src_dir: bool },
    FileClean { k: usize, a: usize, f: usize, src_dir: bool, was_file: bool },
    FileCopy { k: usize, a: usize, f: usize },
    WalkMk { k: usize, a: usize, f: usize, stack: Vec<Frame>, src: String, dest: String },
    WalkList { k: usize, a: usize, f: usize, stack: Vec<Frame>, src: String, dest: String },
    WalkStep { k: usize, a: usize, f: usize, stack: Vec<Frame> },
    AppPost { k: usize, a: usize, i: usize },
    GlobalPost { i: usize },
    Finished,
    Failed { error: Error },
}

/// The mathematical value of a stage.
#[verifier::ext_equal]
pub enum StageModel {
    Ready,
    GlobalPre { i: int },
    PickApp { k: int },
    AppPre { k: int, a: int, i: int },
    FileCheck { k: int, a: int, f: int },
    FileSrc { k: int, a: int, f: int },
    FileParent { k: int, a: int, f: int, src_dir: bool },
    FileMkParent { k: int, a: int, f: int, src_dir: bool },
    FileDest { k: int, a: int, f: int, src_dir: bool },
    FileClean { k: int, a: int, f: int, src_dir: bool, was_file: bool },
    FileCopy { k: int, a: int, f: int },
    WalkMk { k: int, a: int, f: int, stack: Seq<FrameModel>, src: Seq<char>, dest: Seq<char> },
    WalkList { k: int, a: int, f: int, stack: Seq<FrameModel>, src: Seq<char>, dest: Seq<char> },
    WalkStep { k: int, a: int, f: int, stack: Seq<FrameModel> },
    AppPost { k: int, a: int, i: int },
    GlobalPost { i: int },
    Finished,
    Failed { kind: Type, msg: Seq<char> },
}

impl View for Stage {
    type V = StageModel;

    closed spec fn view(&self) -> StageModel {
        match self {
            Stage::Ready => StageModel::Ready,
            Stage::GlobalPre { i } => StageModel::GlobalPre { i: *i as int },
            Stage::PickApp { k } => StageModel::PickApp { k: *k as int },
            Stage::AppPre { k, a, i } => StageModel::AppPre {
                k: *k as int,
                a: *a as int,
                i: *i as int,
            },
            Stage::FileCheck { k, a, f } => StageModel::FileCheck {
                k: *k as int,
                a: *a as int,
                f: *f as int,
            },
            Stage::FileSrc { k, a, f } => StageModel::FileSrc {
                k: *k as int,
                a: *a as int,
                f: *f as int,
            },
            Stage::FileParent { k, a, f, src_dir } => StageModel::FileParent {
                k: *k as int,
                a: *a as int,
                f: *f as int,
                src_dir: *src_dir,
            },
            Stage::FileMkParent { k, a, f, src_dir } => StageModel::FileMkParent {
                k: *k as int,
                a: *a as int,
                f: *f as int,
                src_dir: *src_dir,
            },
            Stage::FileDest { k, a, f, src_dir } => StageModel::FileDest {
                k: *k as int,
                a: *a as int,
                f: *f as int,
                src_dir: *src_dir,
            },
            Stage::FileClean { k, a, f, src_dir, was_file } => StageModel::FileClean {
                k: *k as int,
                a: *a as int,
                f: *f as int,
                src_dir: *src_dir,
                was_file: *was_file,
            },
            Stage::FileCopy { k, a, f } => StageModel::FileCopy {
                k: *k as int,
                a: *a as int,
                f: *f as int,
            },
            Stage::WalkMk { k, a, f, stack, src, dest } => StageModel::WalkMk {
                k: *k as int,
                a: *a as int,
                f: *f as int,
                stack: stack.deep_view(),
                src: src@,
                dest: dest@,
            },
            Stage::WalkList { k, a, f, stack, src, dest } => StageModel::WalkList {
                k: *k as int,
                a: *a as int,
                f: *f as int,
                stack: stack.deep_view(),
                src: src@,
                dest: dest@,
            },
            Stage::WalkStep { k, a, f, stack } => StageModel::WalkStep {
                k: *k as int,
                a: *a as int,
                f: *f as int,
                stack: stack.deep_view(),
            },
            Stage::AppPost { k, a, i } => StageModel::AppPost {
                k: *k as int,
                a: *a as int,
                i: *i as int,
            },
            Stage::GlobalPost { i } => StageModel::GlobalPost { i: *i as int },
            Stage::Finished => StageModel::Finished,
            Stage::Failed { error } => StageModel::Failed { kind: error.kind, msg: error.msg@ },
        }
    }
}

/// The mathematical value of the engine's effective configuration, fixed
/// for the whole run; the changing part is the stage, held beside it.
#[verifier::ext_equal]
pub struct EngineModel {
    pub direction: Direction,
    pub clean: bool,
    pub root: Seq<char>,
    pub backup_dir: Seq<char>,
    pub global_ignore: Seq<Seq<char>>,
    pub selected: Seq<Seq<char>>,
    pub apps: Seq<AppModel>,
    pub global_pre: Seq<Seq<char>>,
    pub global_post: Seq<Seq<char>>,
}

/// The engine: the effective configuration of one run, fixed at
/// construction, and the stage the run stands at.
#[derive(Debug)]
pub struct Engine {
    direction: Direction,
    clean: bool,
    root: String,
    backup_dir: String,
    global_ignore: Vec<GlobPattern>,
    selected: Vec<String>,
    apps: Vec<App>,
    global_pre: Vec<String>,
    global_post: Vec<String>,
    stage: Stage,
}

impl View for Engine {
    type V = EngineModel;

    closed spec fn view(&self) -> EngineModel {
        EngineModel {
            direction: self.direction,
            clean: self.clean,
            root: self.root@,
            backup_dir: self.backup_dir@,
            global_ignore: pat_views(self.global_ignore@),
            selected: self.selected.deep_view(),
            apps: self.apps.deep_view(),
            global_pre: self.global_pre.deep_view(),
            global_post: self.global_post.deep_view(),
        }
    }
}

impl Engine {
    /// The stage the run stands at, as its mathematical value.
    pub closed spec fn stage_v(&self) -> StageModel {
        self.stage@
    }
}

/// The decimal rendering of an integer, as core's formatting produces it.
pub uninterp spec fn decimal_of(n: int) -> Seq<char>;

/// Relies on the integer formatting of core: the digits depend on the value
/// alone.
#[verifier::external_body]
fn fmt_i32(n: i32) -> (r: String)
    ensures
        r@ == decimal_of(n as int),
{
    format!("{}", n)
}

/// The first application with the given name, searched from position `i`.
pub open spec fn find_from(apps: Seq<AppModel>, name: Seq<char>, i: int) -> Option<int>
    decreases apps.len() - i,
{
    if i < 0 || i >= apps.len() {
        None
    } else if apps[i].name == name {
        Some(i)
    } else {
        find_from(apps, name, i + 1)
    }
}

impl EngineModel {
    /// The pre-operation hooks of application `a` for this direction.
    pub open spec fn app_pre(self, a: int) -> Seq<Seq<char>> {
        if self.direction is Backup {
            self.apps[a].pre_backup
        } else {
            self.apps[a].pre_setup
        }
    }

    /// The post-operation hooks of application `a` for this direction.
    pub open spec fn app_post(self, a: int) -> Seq<Seq<char>> {
        if self.direction is Backup {
            self.apps[a].post_backup
        } else {
            self.apps[a].post_setup
        }
    }

    /// How many applications the run schedules: the selected names, or all
    /// applications when none are selected.
    pub open spec fn sched_len(self) -> int {
        if self.selected.len() == 0 {
            self.apps.len() as int
        } else {
            self.selected.len() as int
        }
    }

    /// The live path of file `f` of application `a`.
    pub open spec fn live(self, a: int, f: int) -> Seq<char> {
        self.apps[a].files[f]
    }

    /// The archive path mirroring that live path under the backup
    /// directory.
    pub open spec fn archive(self, a: int, f: int) -> Seq<char> {
        mapped(self.backup_dir, self.root, self.live(a, f))
    }

    /// Where the copy of file `f` reads from: the live path on backup, the
    /// archive path on setup.
    pub open spec fn src_of(self, a: int, f: int) -> Seq<char> {
        if self.direction is Backup {
            self.live(a, f)
        } else {
            self.archive(a, f)
        }
    }

    /// Where the copy of file `f` writes to.
    pub open spec fn dest_of(self, a: int, f: int) -> Seq<char> {
        if self.direction is Backup {
            self.archive(a, f)
        } else {
            self.live(a, f)
        }
    }

    /// Whether an entry name is excluded for application `a`: some pattern
    /// of the application's or of the global ignore list matches it.
    pub open spec fn entry_ignored(self, a: int, name: Seq<char>) -> bool {
        ignored_by(self.apps[a].ignore, name) || ignored_by(self.global_ignore, name)
    }
}

/// A file position mid-processing: all indices in bounds, and the live
/// path already found to lie under the root.
pub open spec fn file_pos_inv(m: EngineModel, k: int, a: int, f: int) -> bool {
    &&& 0 <= k < m.sched_len()
    &&& 0 <= a < m.apps.len()
    &&& 0 <= f < m.apps[a].files.len()
    &&& under_root(m.root, m.live(a, f))
}

/// Every index a stage holds is within its list, so that the next step can
/// read what it points at.
pub open spec fn stage_inv(m: EngineModel, st: StageModel) -> bool {
    match st {
        StageModel::Ready => true,
        StageModel::GlobalPre { i } => 0 <= i < m.global_pre.len(),
        StageModel::PickApp { k } => 0 <= k <= m.sched_len(),
        StageModel::AppPre { k, a, i } => 0 <= k < m.sched_len() && 0 <= a < m.apps.len() && 0
            <= i < m.app_pre(a).len(),
        StageModel::FileCheck { k, a, f } => 0 <= k < m.sched_len() && 0 <= a < m.apps.len()
            && 0 <= f <= m.apps[a].files.len(),
        StageModel::FileSrc { k, a, f } => file_pos_inv(m, k, a, f),
        StageModel::FileParent { k, a, f, .. } => file_pos_inv(m, k, a, f),
        StageModel::FileMkParent { k, a, f, .. } => file_pos_inv(m, k, a, f),
        StageModel::FileDest { k, a, f, .. } => file_pos_inv(m, k, a, f) && m.clean,
        StageModel::FileClean { k, a, f, .. } => file_pos_inv(m, k, a, f) && m.clean,
        StageModel::FileCopy { k, a, f } => file_pos_inv(m, k, a, f),
        StageModel::WalkMk { k, a, f, stack, .. } => file_pos_inv(m, k, a, f) && stack_inv(
            stack,
        ),
        StageModel::WalkList { k, a, f, stack, .. } => file_pos_inv(m, k, a, f) && stack_inv(
            stack,
        ),
        StageModel::WalkStep { k, a, f, stack } => file_pos_inv(m, k, a, f) && stack_inv(
            stack,
        ),
        StageModel::AppPost { k, a, i } => 0 <= k < m.sched_len() && 0 <= a < m.apps.len() && 0
            <= i < m.app_post(a).len(),
        StageModel::GlobalPost { i } => 0 <= i < m.global_post.len(),
        StageModel::Finished => true,
        StageModel::Failed { .. } => true,
    }
}

/// Every frame's position lies within its listing.
pub open spec fn stack_inv(stack: Seq<FrameModel>) -> bool {
    forall|i: int| 0 <= i < stack.len() ==> 0 <= (#[trigger] stack[i]).next <= stack[i].entries.len()
}

/// The transition into the failed stage, reporting the error.
pub open spec fn fail_to(kind: Type, msg: Seq<char>) -> (StageModel, OpModel) {
    (StageModel::Failed { kind, msg }, OpModel::Fail { kind, msg })
}

/// The reply to an event no outstanding operation can produce.
pub open spec fn unexpected() -> (StageModel, OpModel) {
    fail_to(Type::Unknown, "unexpected event"@)
}

/// Moves to schedule position `k`, to be processed on the next step.
pub open spec fn goto_pick(k: int) -> (StageModel, OpModel) {
    (StageModel::PickApp { k }, OpModel::Nop)
}

/// Moves to file `f` of application `a`, to be examined on the next step.
pub open spec fn goto_file_check(k: int, a: int, f: int) -> (StageModel, OpModel) {
    (StageModel::FileCheck { k, a, f }, OpModel::Nop)
}

/// Starts the run: the first global pre-operation hook, or the first
/// scheduled application when there is none.
pub open spec fn enter_run(m: EngineModel) -> (StageModel, OpModel) {
    if m.global_pre.len() > 0 {
        (StageModel::GlobalPre { i: 0 }, OpModel::RunHook { script: m.global_pre[0] })
    } else {
        goto_pick(0)
    }
}

/// Starts application `a`: its first pre-operation hook, or its first file.
pub open spec fn enter_app(m: EngineModel, k: int, a: int) -> (StageModel, OpModel) {
    if m.app_pre(a).len() > 0 {
        (StageModel::AppPre { k, a, i: 0 }, OpModel::RunHook { script: m.app_pre(a)[0] })
    } else {
        goto_file_check(k, a, 0)
    }
}

/// Ends application `a`: its first post-operation hook, or the next
/// schedule position.
pub open spec fn enter_app_post(m: EngineModel, k: int, a: int) -> (StageModel, OpModel) {
    if m.app_post(a).len() > 0 {
        (StageModel::AppPost { k, a, i: 0 }, OpModel::RunHook { script: m.app_post(a)[0] })
    } else {
        goto_pick(k + 1)
    }
}

/// Ends the run: the first global post-operation hook, or success.
pub open spec fn enter_global_post(m: EngineModel) -> (StageModel, OpModel) {
    if m.global_post.len() > 0 {
        (StageModel::GlobalPost { i: 0 }, OpModel::RunHook { script: m.global_post[0] })
    } else {
        (StageModel::Finished, OpModel::Done)
    }
}

/// The error text for a file that does not lie under the configuration
/// root.
pub open spec fn outside_root_msg(m: EngineModel, live: Seq<char>) -> Seq<char> {
    if m.direction is Backup {
        "expected files under the configuration root ("@ + m.root + "): "@ + live
    } else {
        "configuration file not under configuration root: "@ + live
    }
}

/// Examines file `f` of application `a`: past the last file the
/// application's post hooks begin; a live path outside the root fails the
/// run with a configuration error; otherwise the copy source is statted.
pub open spec fn check_file(m: EngineModel, k: int, a: int, f: int) -> (StageModel, OpModel) {
    if f == m.apps[a].files.len() {
        enter_app_post(m, k, a)
    } else if !under_root(m.root, m.live(a, f)) {
        fail_to(Type::Config, outside_root_msg(m, m.live(a, f)))
    } else {
        (StageModel::FileSrc { k, a, f }, OpModel::Stat { path: m.src_of(a, f) })
    }
}

/// After the source was found: stat the destination's parent directory, or
/// proceed when the destination has none.
pub open spec fn after_src(m: EngineModel, k: int, a: int, f: int, src_dir: bool) -> (
    StageModel,
    OpModel,
) {
    match parent_dir(m.dest_of(a, f)) {
        Some(par) => (
            StageModel::FileParent { k, a, f, src_dir },
            OpModel::Stat { path: par },
        ),
        None => after_parent(m, k, a, f, src_dir),
    }
}

/// After the destination's parent exists: under the clean policy the
/// destination is statted so stale content can be removed first; otherwise
/// the copy begins.
pub open spec fn after_parent(m: EngineModel, k: int, a: int, f: int, src_dir: bool) -> (
    StageModel,
    OpModel,
) {
    if m.clean {
        (StageModel::FileDest { k, a, f, src_dir }, OpModel::Stat { path: m.dest_of(a, f) })
    } else {
        begin_copy(m, k, a, f, src_dir)
    }
}

/// Begins the copy of file `f`: a plain byte copy for a regular file, the
/// tree walk for a directory.
pub open spec fn begin_copy(m: EngineModel, k: int, a: int, f: int, src_dir: bool) -> (
    StageModel,
    OpModel,
) {
    if src_dir {
        (
            StageModel::WalkMk {
                k,
                a,
                f,
                stack: Seq::empty(),
                src: m.src_of(a, f),
                dest: m.dest_of(a, f),
            },
            OpModel::MkDirAll { path: m.dest_of(a, f) },
        )
    } else {
        (
            StageModel::FileCopy { k, a, f },
            OpModel::CopyFile { src: m.src_of(a, f), dest: m.dest_of(a, f) },
        )
    }
}

/// Processes the tree walk: an exhausted listing pops its frame; an entry
/// matching an ignore pattern is skipped, and the rest of its directory's
/// listing is still processed; a subdirectory is entered; a file is
/// copied. An empty stack ends the walk and moves to the next file.
pub open spec fn walk_advance(m: EngineModel, k: int, a: int, f: int, stack: Seq<FrameModel>) -> (
    StageModel,
    OpModel,
) {
    if stack.len() == 0 {
        goto_file_check(k, a, f + 1)
    } else {
        let top = stack.last();
        if top.next == top.entries.len() {
            (StageModel::WalkStep { k, a, f, stack: stack.drop_last() }, OpModel::Nop)
        } else {
            let e = top.entries[top.next];
            let stack2 = stack.update(
                stack.len() - 1,
                FrameModel { next: top.next + 1, ..top },
            );
            if m.entry_ignored(a, e.name) {
                (StageModel::WalkStep { k, a, f, stack: stack2 }, OpModel::Nop)
            } else if e.is_dir {
                (
                    StageModel::WalkMk {
                        k,
                        a,
                        f,
                        stack: stack2,
                        src: joined(top.src, e.name),
                        dest: joined(top.dest, e.name),
                    },
                    OpModel::MkDirAll { path: joined(top.dest, e.name) },
                )
            } else {
                (
                    StageModel::WalkStep { k, a, f, stack: stack2 },
                    OpModel::CopyFile {
                        src: joined(top.src, e.name),
                        dest: joined(top.dest, e.name),
                    },
                )
            }
        }
    }
}

/// Processes schedule position `k`: past the end the global post hooks
/// begin; otherwise the next application starts, and a selected name that
/// no application bears fails the run with an argument error.
pub open spec fn pick(m: EngineModel, k: int) -> (StageModel, OpModel) {
    if m.selected.len() == 0 {
        if k == m.apps.len() {
            enter_global_post(m)
        } else {
            enter_app(m, k, k)
        }
    } else {
        if k == m.selected.len() {
            enter_global_post(m)
        } else {
            match find_from(m.apps, m.selected[k], 0) {
                None => fail_to(Type::Argument, "app not found: "@ + m.selected[k]),
                Some(a) => enter_app(m, k, a),
            }
        }
    }
}

/// The outcome of a failed hook: a non-zero exit carries the code, a spawn
/// or input failure the driver's message; either is a system error that
/// fails the run.
pub open spec fn hook_outcome(ev: EventModel) -> (StageModel, OpModel) {
    match ev {
        EventModel::HookFailed { code } => fail_to(
            Type::System,
            "sh returned non-zero: "@ + decimal_of(code),
        ),
        EventModel::HookError { msg } => fail_to(Type::System, msg),
        _ => unexpected(),
    }
}

/// The transition function: what the engine at stage `st`, fed the outcome
/// `ev`, moves to and issues next.
pub open spec fn step_model(m: EngineModel, st: StageModel, ev: EventModel) -> (
    StageModel,
    OpModel,
) {
    match st {
        StageModel::Ready => match ev {
            EventModel::Start => enter_run(m),
            _ => unexpected(),
        },
        StageModel::GlobalPre { i } => match ev {
            EventModel::Completed => if i + 1 < m.global_pre.len() {
                (
                    StageModel::GlobalPre { i: i + 1 },
                    OpModel::RunHook { script: m.global_pre[i + 1] },
                )
            } else {
                goto_pick(0)
            },
            _ => hook_outcome(ev),
        },
        StageModel::PickApp { k } => match ev {
            EventModel::Completed => pick(m, k),
            _ => unexpected(),
        },
        StageModel::AppPre { k, a, i } => match ev {
            EventModel::Completed => if i + 1 < m.app_pre(a).len() {
                (
                    StageModel::AppPre { k, a, i: i + 1 },
                    OpModel::RunHook { script: m.app_pre(a)[i + 1] },
                )
            } else {
                goto_file_check(k, a, 0)
            },
            _ => hook_outcome(ev),
        },
        StageModel::FileCheck { k, a, f } => match ev {
            EventModel::Completed => check_file(m, k, a, f),
            _ => unexpected(),
        },
        StageModel::FileSrc { k, a, f } => match ev {
            EventModel::Found { kind } => match kind {
                PathKind::Missing => goto_file_check(k, a, f + 1),
                PathKind::IsFile => after_src(m, k, a, f, false),
                PathKind::IsDir => after_src(m, k, a, f, true),
            },
            _ => unexpected(),
        },
        StageModel::FileParent { k, a, f, src_dir } => match ev {
            EventModel::Found { kind } => match kind {
                PathKind::Missing => match parent_dir(m.dest_of(a, f)) {
                    Some(par) => (
                        StageModel::FileMkParent { k, a, f, src_dir },
                        OpModel::MkDirAll { path: par },
                    ),
                    None => unexpected(),
                },
                _ => after_parent(m, k, a, f, src_dir),
            },
            _ => unexpected(),
        },
        StageModel::FileMkParent { k, a, f, src_dir } => match ev {
            EventModel::Completed => after_parent(m, k, a, f, src_dir),
            EventModel::IoFailed { msg } => fail_to(
                Type::System,
                "create directory error: "@ + msg,
            ),
            _ => unexpected(),
        },
        StageModel::FileDest { k, a, f, src_dir } => match ev {
            EventModel::Found { kind } => match kind {
                PathKind::Missing => begin_copy(m, k, a, f, src_dir),
                PathKind::IsFile => (
                    StageModel::FileClean { k, a, f, src_dir, was_file: true },
                    OpModel::RemoveFile { path: m.dest_of(a, f) },
                ),
                PathKind::IsDir => (
                    StageModel::FileClean { k, a, f, src_dir, was_file: false },
                    OpModel::RemoveTree { path: m.dest_of(a, f) },
                ),
            },
            _ => unexpected(),
        },
        StageModel::FileClean { k, a, f, src_dir, was_file } => match ev {
            EventModel::Completed => begin_copy(m, k, a, f, src_dir),
            EventModel::IoFailed { msg } => fail_to(
                Type::System,
                if was_file {
                    "remove file error: "@ + msg
                } else {
                    "remove directory error: "@ + msg
                },
            ),
            _ => unexpected(),
        },
        StageModel::FileCopy { k, a, f } => match ev {
            EventModel::Completed => goto_file_check(k, a, f + 1),
            EventModel::IoFailed { msg } => fail_to(Type::System, "copy file error: "@ + msg),
            _ => unexpected(),
        },
        StageModel::WalkMk { k, a, f, stack, src, dest } => match ev {
            EventModel::Completed => (
                StageModel::WalkList { k, a, f, stack, src, dest },
                OpModel::ReadDir { path: src },
            ),
            EventModel::IoFailed { msg } => fail_to(
                Type::System,
                "copy directory error: "@ + msg,
            ),
            _ => unexpected(),
        },
        StageModel::WalkList { k, a, f, stack, src, dest } => match ev {
            EventModel::Listing { entries } => walk_advance(
                m,
                k,
                a,
                f,
                stack.push(FrameModel { src, dest, entries, next: 0 }),
            ),
            EventModel::IoFailed { msg } => fail_to(
                Type::System,
                "copy directory error: "@ + msg,
            ),
            _ => unexpected(),
        },
        StageModel::WalkStep { k, a, f, stack } => match ev {
            EventModel::Completed => walk_advance(m, k, a, f, stack),
            EventModel::IoFailed { msg } => fail_to(
                Type::System,
                "copy directory error: "@ + msg,
            ),
            _ => unexpected(),
        },
        StageModel::AppPost { k, a, i } => match ev {
            EventModel::Completed => if i + 1 < m.app_post(a).len() {
                (
                    StageModel::AppPost { k, a, i: i + 1 },
                    OpModel::RunHook { script: m.app_post(a)[i + 1] },
                )
            } else {
                goto_pick(k + 1)
            },
            _ => hook_outcome(ev),
        },
        StageModel::GlobalPost { i } => match ev {
            EventModel::Completed => if i + 1 < m.global_post.len() {
                (
                    StageModel::GlobalPost { i: i + 1 },
                    OpModel::RunHook { script: m.global_post[i + 1] },
                )
            } else {
                (StageModel::Finished, OpModel::Done)
            },
            _ => hook_outcome(ev),
        },
        StageModel::Finished => (StageModel::Finished, OpModel::Done),
        StageModel::Failed { kind, msg } => fail_to(kind, msg),
    }
}


/// A found application lies within bounds and bears the name; positions
/// before it do not.
pub proof fn lemma_find_from(apps: Seq<AppModel>, name: Seq<char>, i: int)
    ensures
        match find_from(apps, name, i) {
            Some(j) => i <= j < apps.len() && apps[j].name == name,
            None => true,
        },
    decreases apps.len() - i,
{
    if i < 0 || i >= apps.len() {
    } else if apps[i].name == name {
    } else {
        lemma_find_from(apps, name, i + 1);
    }
}

/// The first application bearing the name, if any.
fn find_app(apps: &Vec<App>, name: &str) -> (r: Option<usize>)
    ensures
        match r {
            Some(a) => find_from(apps.deep_view(), name@, 0) == Some(a as int) && a
                < apps@.len(),
            None => find_from(apps.deep_view(), name@, 0) is None,
        },
{
    let mut i: usize = 0;
    while i < apps.len()
        invariant
            0 <= i <= apps@.len(),
            find_from(apps.deep_view(), name@, 0) == find_from(apps.deep_view(), name@, i as int),
        decreases apps@.len() - i,
    {
        if crate::paths::str_eq(apps[i].name.as_str(), name) {
            return Some(i);
        }
        i += 1;
    }
    None
}

impl Engine {
    /// Builds the engine for one run: the effective configuration merged
    /// from the document and the command line, the configuration root, and
    /// the direction. A configuration without a backup directory is
    /// rejected, the fatal error of either operation.
    pub fn new(config: Config, root: String, direction: Direction) -> (r: Result<Engine, Error>)
        ensures
            match r {
                Ok(e) => {
                    &&& config.backup_dir matches Some(b) && e@.backup_dir == b@
                    &&& e@.direction == direction
                    &&& e@.clean == config.clean
                    &&& e@.root == root@
                    &&& e@.global_ignore == pat_views(config.ignore@)
                    &&& e@.selected == config.selected_apps.deep_view()
                    &&& e@.apps == config.apps.deep_view()
                    &&& e@.global_pre == if direction is Backup {
                        config.pre_backup.deep_view()
                    } else {
                        config.pre_setup.deep_view()
                    }
                    &&& e@.global_post == if direction is Backup {
                        config.post_backup.deep_view()
                    } else {
                        config.post_setup.deep_view()
                    }
                    &&& e.stage_v() == StageModel::Ready
                },
                Err(err) => {
                    &&& config.backup_dir is None
                    &&& err.kind == Type::Config
                    &&& err.msg@ == "backup_dir not set"@
                },
            },
    {
        let Config {
            selected_apps,
            clean,
            backup_dir,
            ignore,
            apps,
            pre_backup,
            post_backup,
            pre_setup,
            post_setup,
        } = config;
        let backup_dir = match backup_dir {
            Some(b) => b,
            None => {
                proof {
                    reveal_strlit("backup_dir not set");
                }
                return Err(Error::new(Type::Config, "backup_dir not set".to_owned()));
            },
        };
        let (global_pre, global_post) = match direction {
            Direction::Backup => (pre_backup, post_backup),
            Direction::Setup => (pre_setup, post_setup),
        };
        Ok(
            Engine {
                direction,
                clean,
                root,
                backup_dir,
                global_ignore: ignore,
                selected: selected_apps,
                apps,
                global_pre,
                global_post,
                stage: Stage::Ready,
            },
        )
    }

    /// Where the copy of file `f` of application `a` reads from.
    fn src_of_e(&self, a: usize, f: usize) -> (r: String)
        requires
            0 <= a < self@.apps.len(),
            0 <= f < self@.apps[a as int].files.len(),
            under_root(self@.root, self@.live(a as int, f as int)),
        ensures
            r@ == self@.src_of(a as int, f as int),
    {
        match self.direction {
            Direction::Backup => self.apps[a].files[f].clone(),
            Direction::Setup => crate::paths::map_path(
                self.backup_dir.as_str(),
                self.root.as_str(),
                self.apps[a].files[f].as_str(),
            ),
        }
    }

    /// Where the copy of file `f` of application `a` writes to.
    fn dest_of_e(&self, a: usize, f: usize) -> (r: String)
        requires
            0 <= a < self@.apps.len(),
            0 <= f < self@.apps[a as int].files.len(),
            under_root(self@.root, self@.live(a as int, f as int)),
        ensures
            r@ == self@.dest_of(a as int, f as int),
    {
        match self.direction {
            Direction::Backup => crate::paths::map_path(
                self.backup_dir.as_str(),
                self.root.as_str(),
                self.apps[a].files[f].as_str(),
            ),
            Direction::Setup => self.apps[a].files[f].clone(),
        }
    }

    /// The pre-operation hooks of application `a` for this direction.
    fn app_pre_e(&self, a: usize) -> (r: &Vec<String>)
        requires
            0 <= a < self@.apps.len(),
        ensures
            r.deep_view() == self@.app_pre(a as int),
    {
        match self.direction {
            Direction::Backup => &self.apps[a].pre_backup,
            Direction::Setup => &self.apps[a].pre_setup,
        }
    }

    /// The post-operation hooks of application `a` for this direction.
    fn app_post_e(&self, a: usize) -> (r: &Vec<String>)
        requires
            0 <= a < self@.apps.len(),
        ensures
            r.deep_view() == self@.app_post(a as int),
    {
        match self.direction {
            Direction::Backup => &self.apps[a].post_backup,
            Direction::Setup => &self.apps[a].post_setup,
        }
    }

    /// How many applications the run schedules.
    fn sched_len_e(&self) -> (r: usize)
        ensures
            r as int == self@.sched_len(),
    {
        if self.selected.len() == 0 {
            self.apps.len()
        } else {
            self.selected.len()
        }
    }
}

/// The transition into the failed stage.
fn fail_to_e(kind: Type, msg: String) -> (r: (Stage, Op))
    ensures
        (r.0@, r.1@) == fail_to(kind, msg@),
{
    let error = Error::new(kind, msg);
    let error2 = error.clone();
    (Stage::Failed { error }, Op::Fail { error: error2 })
}

/// The reply to an event no outstanding operation can produce.
fn unexpected_e() -> (r: (Stage, Op))
    ensures
        (r.0@, r.1@) == unexpected(),
{
    fail_to_e(Type::Unknown, "unexpected event".to_owned())
}

/// A failure message with its fixed prefix.
pub(crate) fn prefixed(prefix: &str, rest: &str) -> (r: String)
    ensures
        r@ == prefix@ + rest@,
{
    let mut m: String = prefix.to_owned();
    m.append(rest);
    m
}

/// The outcome of a failed hook.
fn hook_outcome_e(ev: Event) -> (r: (Stage, Op))
    ensures
        (r.0@, r.1@) == hook_outcome(ev@),
{
    match ev {
        Event::HookFailed { code } => {
            let digits = fmt_i32(code);
            fail_to_e(Type::System, prefixed("sh returned non-zero: ", digits.as_str()))
        },
        Event::HookError { msg } => fail_to_e(Type::System, msg),
        _ => unexpected_e(),
    }
}


impl Engine {
    /// Moves to schedule position `k`.
    fn goto_pick_e(&self, k: usize) -> (r: (Stage, Op))
        requires
            k as int <= self@.sched_len(),
        ensures
            (r.0@, r.1@) == goto_pick(k as int),
            stage_inv(self@, r.0@),
    {
        (Stage::PickApp { k }, Op::Nop)
    }

    /// Moves to file `f` of application `a`.
    fn goto_file_check_e(&self, k: usize, a: usize, f: usize) -> (r: (Stage, Op))
        requires
            (k as int) < self@.sched_len(),
            0 <= a < self@.apps.len(),
            0 <= f <= self@.apps[a as int].files.len(),
        ensures
            (r.0@, r.1@) == goto_file_check(k as int, a as int, f as int),
            stage_inv(self@, r.0@),
    {
        (Stage::FileCheck { k, a, f }, Op::Nop)
    }

    /// Starts the run.
    fn enter_run_e(&self) -> (r: (Stage, Op))
        ensures
            (r.0@, r.1@) == enter_run(self@),
            stage_inv(self@, r.0@),
    {
        if self.global_pre.len() > 0 {
            (Stage::GlobalPre { i: 0 }, Op::RunHook { script: self.global_pre[0].clone() })
        } else {
            self.goto_pick_e(0)
        }
    }

    /// Starts application `a` at schedule position `k`.
    fn enter_app_e(&self, k: usize, a: usize) -> (r: (Stage, Op))
        requires
            (k as int) < self@.sched_len(),
            0 <= a < self@.apps.len(),
        ensures
            (r.0@, r.1@) == enter_app(self@, k as int, a as int),
            stage_inv(self@, r.0@),
    {
        let pre = self.app_pre_e(a);
        if pre.len() > 0 {
            (Stage::AppPre { k, a, i: 0 }, Op::RunHook { script: pre[0].clone() })
        } else {
            self.goto_file_check_e(k, a, 0)
        }
    }

    /// Ends application `a`: its post hooks, or the next schedule position.
    fn enter_app_post_e(&self, k: usize, a: usize) -> (r: (Stage, Op))
        requires
            (k as int) < self@.sched_len(),
            0 <= a < self@.apps.len(),
        ensures
            (r.0@, r.1@) == enter_app_post(self@, k as int, a as int),
            stage_inv(self@, r.0@),
    {
        let n = self.sched_len_e();
        assert(k < n);
        let post = self.app_post_e(a);
        if post.len() > 0 {
            (Stage::AppPost { k, a, i: 0 }, Op::RunHook { script: post[0].clone() })
        } else {
            self.goto_pick_e(k + 1)
        }
    }

    /// Ends the run.
    fn enter_global_post_e(&self) -> (r: (Stage, Op))
        ensures
            (r.0@, r.1@) == enter_global_post(self@),
            stage_inv(self@, r.0@),
    {
        if self.global_post.len() > 0 {
            (Stage::GlobalPost { i: 0 }, Op::RunHook { script: self.global_post[0].clone() })
        } else {
            (Stage::Finished, Op::Done)
        }
    }

    /// Examines file `f` of application `a`.
    fn check_file_e(&self, k: usize, a: usize, f: usize) -> (r: (Stage, Op))
        requires
            (k as int) < self@.sched_len(),
            0 <= a < self@.apps.len(),
            0 <= f <= self@.apps[a as int].files.len(),
        ensures
            (r.0@, r.1@) == check_file(self@, k as int, a as int, f as int),
            stage_inv(self@, r.0@),
    {
        if f == self.apps[a].files.len() {
            self.enter_app_post_e(k, a)
        } else {
            let live = &self.apps[a].files[f];
            if !crate::paths::is_under_root(self.root.as_str(), live.as_str()) {
                let msg = match self.direction {
                    Direction::Backup => {
                        let mut m: String = "expected files under the configuration root ("
                            .to_owned();
                        m.append(self.root.as_str());
                        m.append("): ");
                        m.append(live.as_str());
                        m
                    },
                    Direction::Setup => prefixed(
                        "configuration file not under configuration root: ",
                        live.as_str(),
                    ),
                };
                assert(msg@ == outside_root_msg(self@, self@.live(a as int, f as int)));
                fail_to_e(Type::Config, msg)
            } else {
                let src = self.src_of_e(a, f);
                (Stage::FileSrc { k, a, f }, Op::Stat { path: src })
            }
        }
    }

    /// After the source was found.
    fn after_src_e(&self, k: usize, a: usize, f: usize, src_dir: bool) -> (r: (Stage, Op))
        requires
            file_pos_inv(self@, k as int, a as int, f as int),
        ensures
            (r.0@, r.1@) == after_src(self@, k as int, a as int, f as int, src_dir),
            stage_inv(self@, r.0@),
    {
        let dest = self.dest_of_e(a, f);
        match crate::paths::parent_of(dest.as_str()) {
            Some(par) => (Stage::FileParent { k, a, f, src_dir }, Op::Stat { path: par }),
            None => self.after_parent_e(k, a, f, src_dir),
        }
    }

    /// After the destination's parent exists.
    fn after_parent_e(&self, k: usize, a: usize, f: usize, src_dir: bool) -> (r: (Stage, Op))
        requires
            file_pos_inv(self@, k as int, a as int, f as int),
        ensures
            (r.0@, r.1@) == after_parent(self@, k as int, a as int, f as int, src_dir),
            stage_inv(self@, r.0@),
    {
        if self.clean {
            let dest = self.dest_of_e(a, f);
            (Stage::FileDest { k, a, f, src_dir }, Op::Stat { path: dest })
        } else {
            self.begin_copy_e(k, a, f, src_dir)
        }
    }

    /// Begins the copy of file `f`.
    fn begin_copy_e(&self, k: usize, a: usize, f: usize, src_dir: bool) -> (r: (Stage, Op))
        requires
            file_pos_inv(self@, k as int, a as int, f as int),
        ensures
            (r.0@, r.1@) == begin_copy(self@, k as int, a as int, f as int, src_dir),
            stage_inv(self@, r.0@),
    {
        let src = self.src_of_e(a, f);
        let dest = self.dest_of_e(a, f);
        if src_dir {
            let dest2 = dest.clone();
            let st = Stage::WalkMk { k, a, f, stack: Vec::new(), src, dest };
            assert(st@ =~~= (StageModel::WalkMk {
                k: k as int,
                a: a as int,
                f: f as int,
                stack: Seq::empty(),
                src: self@.src_of(a as int, f as int),
                dest: self@.dest_of(a as int, f as int),
            }));
            (st, Op::MkDirAll { path: dest2 })
        } else {
            (Stage::FileCopy { k, a, f }, Op::CopyFile { src, dest })
        }
    }

    /// Processes the tree walk.
    fn walk_advance_e(&self, k: usize, a: usize, f: usize, stack: Vec<Frame>) -> (r: (
        Stage,
        Op,
    ))
        requires
            file_pos_inv(self@, k as int, a as int, f as int),
            stack_inv(stack.deep_view()),
        ensures
            (r.0@, r.1@) == walk_advance(self@, k as int, a as int, f as int, stack.deep_view()),
            stage_inv(self@, r.0@),
    {
        let ghost orig = stack.deep_view();
        let mut stack = stack;
        if stack.len() == 0 {
            let nf = self.apps[a].files.len();
            assert(f < nf);
            return self.goto_file_check_e(k, a, f + 1);
        }
        let mut fr = stack.pop().unwrap();
        assert(fr@ == orig.last());
        if fr.next == fr.entries.len() {
            assert(stack.deep_view() =~~= orig.drop_last());
            return (Stage::WalkStep { k, a, f, stack }, Op::Nop);
        }
        let name = fr.entries[fr.next].name.clone();
        let is_dir = fr.entries[fr.next].is_dir;
        let src0 = fr.src.clone();
        let dest0 = fr.dest.clone();
        fr.next = fr.next + 1;
        let ghost top = orig.last();
        let ghost stack2 = orig.update(orig.len() - 1, FrameModel { next: top.next + 1, ..top });
        stack.push(fr);
        assert(stack.deep_view() =~~= stack2);
        let ignored = crate::globs::is_ignored(name.as_str(), &self.apps[a].ignore)
            || crate::globs::is_ignored(name.as_str(), &self.global_ignore);
        assert(ignored == self@.entry_ignored(a as int, top.entries[top.next].name));
        if ignored {
            (Stage::WalkStep { k, a, f, stack }, Op::Nop)
        } else if is_dir {
            let sub_src = crate::paths::join_path(src0.as_str(), name.as_str());
            let sub_dest = crate::paths::join_path(dest0.as_str(), name.as_str());
            let sub_dest2 = sub_dest.clone();
            (
                Stage::WalkMk { k, a, f, stack, src: sub_src, dest: sub_dest },
                Op::MkDirAll { path: sub_dest2 },
            )
        } else {
            let sub_src = crate::paths::join_path(src0.as_str(), name.as_str());
            let sub_dest = crate::paths::join_path(dest0.as_str(), name.as_str());
            (Stage::WalkStep { k, a, f, stack }, Op::CopyFile { src: sub_src, dest: sub_dest })
        }
    }

    /// Processes schedule position `k`.
    fn pick_e(&self, k: usize) -> (r: (Stage, Op))
        requires
            k as int <= self@.sched_len(),
        ensures
            (r.0@, r.1@) == pick(self@, k as int),
            stage_inv(self@, r.0@),
    {
        if self.selected.len() == 0 {
            if k == self.apps.len() {
                self.enter_global_post_e()
            } else {
                self.enter_app_e(k, k)
            }
        } else {
            if k == self.selected.len() {
                self.enter_global_post_e()
            } else {
                let name = &self.selected[k];
                match find_app(&self.apps, name.as_str()) {
                    None => fail_to_e(
                        Type::Argument,
                        prefixed("app not found: ", name.as_str()),
                    ),
                    Some(a) => {
                        proof {
                            lemma_find_from(self@.apps, name@, 0);
                        }
                        self.enter_app_e(k, a)
                    },
                }
            }
        }
    }

    /// One transition: consumes the stage and the event, yields the next
    /// stage and the operation to issue.
    #[verifier::rlimit(100)]
    #[verifier::spinoff_prover]
    fn transition(&self, st: Stage, ev: Event) -> (r: (Stage, Op))
        requires
            stage_inv(self@, st@),
        ensures
            (r.0@, r.1@) == step_model(self@, st@, ev@),
            stage_inv(self@, r.0@),
    {
        match st {
            Stage::Ready => match ev {
                Event::Start => self.enter_run_e(),
                _ => unexpected_e(),
            },
            Stage::GlobalPre { i } => match ev {
                Event::Completed => {
                    let n = self.global_pre.len();
                    assert(i < n);
                    if i + 1 < n {
                        (
                            Stage::GlobalPre { i: i + 1 },
                            Op::RunHook { script: self.global_pre[i + 1].clone() },
                        )
                    } else {
                        self.goto_pick_e(0)
                    }
                },
                _ => hook_outcome_e(ev),
            },
            Stage::PickApp { k } => match ev {
                Event::Completed => self.pick_e(k),
                _ => unexpected_e(),
            },
            Stage::AppPre { k, a, i } => match ev {
                Event::Completed => {
                    let pre = self.app_pre_e(a);
                    let n = pre.len();
                    assert(i < n);
                    if i + 1 < n {
                        (
                            Stage::AppPre { k, a, i: i + 1 },
                            Op::RunHook { script: pre[i + 1].clone() },
                        )
                    } else {
                        self.goto_file_check_e(k, a, 0)
                    }
                },
                _ => hook_outcome_e(ev),
            },
            Stage::FileCheck { k, a, f } => match ev {
                Event::Completed => self.check_file_e(k, a, f),
                _ => unexpected_e(),
            },
            Stage::FileSrc { k, a, f } => match ev {
                Event::Found { kind } => match kind {
                    PathKind::Missing => {
                        let nf = self.apps[a].files.len();
                        assert(f < nf);
                        self.goto_file_check_e(k, a, f + 1)
                    },
                    PathKind::IsFile => self.after_src_e(k, a, f, false),
                    PathKind::IsDir => self.after_src_e(k, a, f, true),
                },
                _ => unexpected_e(),
            },
            Stage::FileParent { k, a, f, src_dir } => match ev {
                Event::Found { kind } => match kind {
                    PathKind::Missing => {
                        let dest = self.dest_of_e(a, f);
                        match crate::paths::parent_of(dest.as_str()) {
                            Some(par) => (
                                Stage::FileMkParent { k, a, f, src_dir },
                                Op::MkDirAll { path: par },
                            ),
                            None => unexpected_e(),
                        }
                    },
                    _ => self.after_parent_e(k, a, f, src_dir),
                },
                _ => unexpected_e(),
            },
            Stage::FileMkParent { k, a, f, src_dir } => match ev {
                Event::Completed => self.after_parent_e(k, a, f, src_dir),
                Event::IoFailed { msg } => fail_to_e(
                    Type::System,
                    prefixed("create directory error: ", msg.as_str()),
                ),
                _ => unexpected_e(),
            },
            Stage::FileDest { k, a, f, src_dir } => match ev {
                Event::Found { kind } => match kind {
                    PathKind::Missing => self.begin_copy_e(k, a, f, src_dir),
                    PathKind::IsFile => {
                        let dest = self.dest_of_e(a, f);
                        (
                            Stage::FileClean { k, a, f, src_dir, was_file: true },
                            Op::RemoveFile { path: dest },
                        )
                    },
                    PathKind::IsDir => {
                        let dest = self.dest_of_e(a, f);
                        (
                            Stage::FileClean { k, a, f, src_dir, was_file: false },
                            Op::RemoveTree { path: dest },
                        )
                    },
                },
                _ => unexpected_e(),
            },
            Stage::FileClean { k, a, f, src_dir, was_file } => match ev {
                Event::Completed => self.begin_copy_e(k, a, f, src_dir),
                Event::IoFailed { msg } => {
                    if was_file {
                        fail_to_e(Type::System, prefixed("remove file error: ", msg.as_str()))
                    } else {
                        fail_to_e(
                            Type::System,
                            prefixed("remove directory error: ", msg.as_str()),
                        )
                    }
                },
                _ => unexpected_e(),
            },
            Stage::FileCopy { k, a, f } => match ev {
                Event::Completed => {
                    let nf = self.apps[a].files.len();
                    assert(f < nf);
                    self.goto_file_check_e(k, a, f + 1)
                },
                Event::IoFailed { msg } => fail_to_e(
                    Type::System,
                    prefixed("copy file error: ", msg.as_str()),
                ),
                _ => unexpected_e(),
            },
            Stage::WalkMk { k, a, f, stack, src, dest } => match ev {
                Event::Completed => {
                    let src2 = src.clone();
                    (Stage::WalkList { k, a, f, stack, src, dest }, Op::ReadDir { path: src2 })
                },
                Event::IoFailed { msg } => fail_to_e(
                    Type::System,
                    prefixed("copy directory error: ", msg.as_str()),
                ),
                _ => unexpected_e(),
            },
            Stage::WalkList { k, a, f, stack, src, dest } => match ev {
                Event::Listing { entries } => {
                    let ghost pushed = stack.deep_view().push(
                        FrameModel { src: src@, dest: dest@, entries: entries.deep_view(), next: 0 },
                    );
                    let mut stack = stack;
                    stack.push(Frame { src, dest, entries, next: 0 });
                    assert(stack.deep_view() =~~= pushed);
                    self.walk_advance_e(k, a, f, stack)
                },
                Event::IoFailed { msg } => fail_to_e(
                    Type::System,
                    prefixed("copy directory error: ", msg.as_str()),
                ),
                _ => unexpected_e(),
            },
            Stage::WalkStep { k, a, f, stack } => match ev {
                Event::Completed => self.walk_advance_e(k, a, f, stack),
                Event::IoFailed { msg } => fail_to_e(
                    Type::System,
                    prefixed("copy directory error: ", msg.as_str()),
                ),
                _ => unexpected_e(),
            },
            Stage::AppPost { k, a, i } => match ev {
                Event::Completed => {
                    let post = self.app_post_e(a);
                    let n = post.len();
                    assert(i < n);
                    let ns = self.sched_len_e();
                    assert(k < ns);
                    if i + 1 < n {
                        (
                            Stage::AppPost { k, a, i: i + 1 },
                            Op::RunHook { script: post[i + 1].clone() },
                        )
                    } else {
                        self.goto_pick_e(k + 1)
                    }
                },
                _ => hook_outcome_e(ev),
            },
            Stage::GlobalPost { i } => match ev {
                Event::Completed => {
                    let n = self.global_post.len();
                    assert(i < n);
                    if i + 1 < n {
                        (
                            Stage::GlobalPost { i: i + 1 },
                            Op::RunHook { script: self.global_post[i + 1].clone() },
                        )
                    } else {
                        (Stage::Finished, Op::Done)
                    }
                },
                _ => hook_outcome_e(ev),
            },
            Stage::Finished => (Stage::Finished, Op::Done),
            Stage::Failed { error } => {
                let error2 = error.clone();
                (Stage::Failed { error }, Op::Fail { error: error2 })
            },
        }
    }

    /// One step of the run: consumes the outcome of the previously issued
    /// operation and returns the next one, exactly as `step_model` states.
    /// The effective configuration never changes.
    pub fn step(&mut self, ev: Event) -> (op: Op)
        requires
            stage_inv(old(self)@, old(self).stage_v()),
        ensures
            final(self)@ == old(self)@,
            stage_inv(final(self)@, final(self).stage_v()),
            final(self).stage_v() == step_model(old(self)@, old(self).stage_v(), ev@).0,
            op@ == step_model(old(self)@, old(self).stage_v(), ev@).1,
    {
        let mut st = Stage::Ready;
        core::mem::swap(&mut st, &mut self.stage);
        let (st2, op) = self.transition(st, ev);
        self.stage = st2;
        op
    }
}

} // verus!
