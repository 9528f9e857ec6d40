//! The laws of the engine: what holds of every run, proved against the
//! transition function `step_model`.
//!
//! A run is the sequence of stages and operations induced by an arbitrary
//! sequence of event outcomes, starting from `Ready`. The ordering laws rest
//! on a rank that every transition preserves or raises: global pre-hooks
//! run before any copy, copies of one scheduled application run between its
//! pre- and post-hooks, and global post-hooks run after all copies. The
//! failure laws say that a failing hook turns the run into a failure that
//! reports the exit code, and that a failed run never issues another hook
//! or copy.

use vstd::prelude::*;
use crate::engine::{
    EngineModel, StageModel, OpModel, EventModel, step_model, stage_inv, decimal_of,
};
use crate::error::Type;

verus! {

/// The stage before step `t` of the run driven by `evs` from `Ready`.
pub open spec fn run_stage(m: EngineModel, evs: Seq<EventModel>, t: int) -> StageModel
    decreases t,
{
    if t <= 0 {
        StageModel::Ready
    } else {
        step_model(m, run_stage(m, evs, t - 1), evs[t - 1]).0
    }
}

/// The operation issued by step `t` of that run.
pub open spec fn run_op(m: EngineModel, evs: Seq<EventModel>, t: int) -> OpModel {
    step_model(m, run_stage(m, evs, t), evs[t]).1
}

/// The progress rank of a stage: the run's phase, then the schedule
/// position, then the position inside one application (pre-hooks, files,
/// post-hooks). No transition lowers it.
pub open spec fn rank(st: StageModel) -> (int, int, int) {
    match st {
        StageModel::Ready => (0, 0, 0),
        StageModel::GlobalPre { .. } => (1, 0, 0),
        StageModel::PickApp { k } => (2, k, 0),
        StageModel::AppPre { k, .. } => (2, k, 1),
        StageModel::FileCheck { k, .. } => (2, k, 2),
        StageModel::FileSrc { k, .. } => (2, k, 2),
        StageModel::FileParent { k, .. } => (2, k, 2),
        StageModel::FileMkParent { k, .. } => (2, k, 2),
        StageModel::FileDest { k, .. } => (2, k, 2),
        StageModel::FileClean { k, .. } => (2, k, 2),
        StageModel::FileCopy { k, .. } => (2, k, 2),
        StageModel::WalkMk { k, .. } => (2, k, 2),
        StageModel::WalkList { k, .. } => (2, k, 2),
        StageModel::WalkStep { k, .. } => (2, k, 2),
        StageModel::AppPost { k, .. } => (2, k, 3),
        StageModel::GlobalPost { .. } => (3, 0, 0),
        StageModel::Finished => (4, 0, 0),
        StageModel::Failed { .. } => (5, 0, 0),
    }
}

/// Lexicographic order on ranks.
pub open spec fn rank_le(x: (int, int, int), y: (int, int, int)) -> bool {
    ||| x.0 < y.0
    ||| (x.0 == y.0 && x.1 < y.1)
    ||| (x.0 == y.0 && x.1 == y.1 && x.2 <= y.2)
}

/// No transition lowers the rank: the run only moves forward.
#[verifier::rlimit(100)]
#[verifier::spinoff_prover]
pub proof fn lemma_rank_monotone(m: EngineModel, st: StageModel, ev: EventModel)
    ensures
        rank_le(rank(st), rank(step_model(m, st, ev).0)),
{
}

/// What each operation says about where the run stands: a copy is issued
/// only while an application's files are being processed; a stage entering
/// the hook phases is reached only from no later than those phases, and a
/// hook operation is what enters them.
pub proof fn lemma_op_position(m: EngineModel, st: StageModel, ev: EventModel)
    ensures
        step_model(m, st, ev).1 is CopyFile ==> rank(st) == (2int, rank(st).1, 2int),
        step_model(m, st, ev).0 is GlobalPre ==> rank(st).0 <= 1 && step_model(
            m,
            st,
            ev,
        ).1 is RunHook,
        step_model(m, st, ev).0 is GlobalPost ==> rank(st).0 >= 2 && step_model(
            m,
            st,
            ev,
        ).1 is RunHook,
        step_model(m, st, ev).0 matches StageModel::AppPre { k, .. } ==> rank_le(
            rank(st),
            (2int, k, 1int),
        ) && step_model(m, st, ev).1 is RunHook,
        step_model(m, st, ev).0 matches StageModel::AppPost { k, .. } ==> rank_le(
            (2int, k, 2int),
            rank(st),
        ) && rank_le(rank(st), (2int, k, 3int)) && step_model(m, st, ev).1 is RunHook,
        step_model(m, st, ev).1 is CopyFile ==> (step_model(m, st, ev).0 matches
            StageModel::FileCopy { k, .. } && rank(st).1 == k) || (step_model(m, st, ev).0
            matches StageModel::WalkStep { k, .. } && rank(st).1 == k),
{
}

/// Along any run, the rank never decreases.
pub proof fn lemma_run_rank_monotone(m: EngineModel, evs: Seq<EventModel>, t1: int, t2: int)
    requires
        0 <= t1 <= t2,
    ensures
        rank_le(rank(run_stage(m, evs, t1)), rank(run_stage(m, evs, t2))),
    decreases t2 - t1,
{
    if t1 < t2 {
        lemma_run_rank_monotone(m, evs, t1, t2 - 1);
        lemma_rank_monotone(m, run_stage(m, evs, t2 - 1), evs[t2 - 1]);
    }
}

/// Hook ordering, globally: in any run, every global pre-hook is issued
/// before every file copy, and every file copy before every global
/// post-hook.
pub proof fn theorem_global_hook_ordering(
    m: EngineModel,
    evs: Seq<EventModel>,
    th: int,
    tc: int,
)
    requires
        0 <= th,
        0 <= tc,
        run_op(m, evs, tc) is CopyFile,
    ensures
        run_stage(m, evs, th + 1) is GlobalPre ==> th < tc,
        run_stage(m, evs, th + 1) is GlobalPost ==> tc < th,
{
    lemma_op_position(m, run_stage(m, evs, tc), evs[tc]);
    lemma_op_position(m, run_stage(m, evs, th), evs[th]);
    if run_stage(m, evs, th + 1) is GlobalPre {
        if tc <= th {
            lemma_run_rank_monotone(m, evs, tc, th);
        }
    }
    if run_stage(m, evs, th + 1) is GlobalPost {
        if th <= tc {
            lemma_run_rank_monotone(m, evs, th + 1, tc);
        }
    }
}

/// Hook ordering, per application: in any run, the pre-hooks of the
/// application scheduled at position `k` are issued before every copy done
/// for that position, and those copies before its post-hooks.
#[verifier::rlimit(100)]
#[verifier::spinoff_prover]
pub proof fn theorem_app_hook_ordering(
    m: EngineModel,
    evs: Seq<EventModel>,
    th: int,
    tc: int,
    k: int,
)
    requires
        0 <= th,
        0 <= tc,
        run_op(m, evs, tc) is CopyFile,
        rank(run_stage(m, evs, tc)).1 == k,
    ensures
        (run_stage(m, evs, th + 1) matches StageModel::AppPre { k: k2, .. } && k2 == k) ==> th
            < tc,
        (run_stage(m, evs, th + 1) matches StageModel::AppPost { k: k2, .. } && k2 == k) ==> tc
            < th,
{
    lemma_op_position(m, run_stage(m, evs, tc), evs[tc]);
    lemma_op_position(m, run_stage(m, evs, th), evs[th]);
    if run_stage(m, evs, th + 1) matches StageModel::AppPre { k: k2, .. } && k2 == k {
        if tc <= th {
            lemma_run_rank_monotone(m, evs, tc, th);
        }
    }
    if run_stage(m, evs, th + 1) matches StageModel::AppPost { k: k2, .. } && k2 == k {
        if th <= tc {
            lemma_run_rank_monotone(m, evs, th + 1, tc);
        }
    }
}

/// A hook that exits non-zero fails the run at once, as a system error
/// whose message carries the exit code; a spawn failure likewise, with the
/// driver's message.
pub proof fn theorem_hook_failure_aborts(
    m: EngineModel,
    st: StageModel,
    code: int,
)
    requires
        st is GlobalPre || st is AppPre || st is AppPost || st is GlobalPost,
    ensures
        step_model(m, st, EventModel::HookFailed { code }) == (
            StageModel::Failed {
                kind: Type::System,
                msg: "sh returned non-zero: "@ + decimal_of(code),
            },
            OpModel::Fail {
                kind: Type::System,
                msg: "sh returned non-zero: "@ + decimal_of(code),
            },
        ),
{
}

/// A failed run stays failed: no later event makes it issue a hook, a
/// copy, a removal or anything but the failure report.
pub proof fn theorem_failure_is_terminal(m: EngineModel, st: StageModel, ev: EventModel)
    requires
        st is Failed,
    ensures
        step_model(m, st, ev).0 == st,
        step_model(m, st, ev).1 matches OpModel::Fail { kind, msg } && (st matches
            StageModel::Failed { kind: k2, msg: m2 } && kind == k2 && msg == m2),
{
}

/// Once a run has failed, it stays failed for the rest of the run.
pub proof fn theorem_failure_persists(m: EngineModel, evs: Seq<EventModel>, t1: int, t2: int)
    requires
        0 <= t1 <= t2,
        run_stage(m, evs, t1) is Failed,
    ensures
        run_stage(m, evs, t2) is Failed,
    decreases t2 - t1,
{
    if t1 < t2 {
        theorem_failure_is_terminal(m, run_stage(m, evs, t1), evs[t1]);
        theorem_failure_persists(m, evs, t1 + 1, t2);
    }
}

/// Without the clean policy, no run ever removes anything: a second backup
/// over an unchanged tree only rewrites the same copies.
pub proof fn theorem_no_clean_no_removal(m: EngineModel, st: StageModel, ev: EventModel)
    requires
        !m.clean,
        stage_inv(m, st),
    ensures
        !(step_model(m, st, ev).1 is RemoveFile),
        !(step_model(m, st, ev).1 is RemoveTree),
{
}

/// A file outside the configuration root fails the application's whole
/// operation with a configuration error the moment it is examined.
pub proof fn theorem_outside_root_rejected(
    m: EngineModel,
    st: StageModel,
    k: int,
    a: int,
    f: int,
)
    requires
        st == (StageModel::FileCheck { k, a, f }),
        stage_inv(m, st),
        f < m.apps[a].files.len(),
        !crate::paths::under_root(m.root, m.apps[a].files[f]),
    ensures
        step_model(m, st, EventModel::Completed).0 matches StageModel::Failed {
            kind,
            ..
        } && kind == Type::Config,
        step_model(m, st, EventModel::Completed).1 matches OpModel::Fail { kind, .. } && kind
            == Type::Config,
{
}

/// A selected name that no application bears fails the run with an
/// argument error naming it, the moment its turn comes.
pub proof fn theorem_unknown_selection_rejected(m: EngineModel, st: StageModel, k: int)
    requires
        st == (StageModel::PickApp { k }),
        0 <= k < m.selected.len(),
        crate::engine::find_from(m.apps, m.selected[k], 0) is None,
    ensures
        step_model(m, st, EventModel::Completed).0 matches StageModel::Failed {
            kind,
            ..
        } && kind == Type::Argument,
        step_model(m, st, EventModel::Completed).1 matches OpModel::Fail { kind, msg } && kind
            == Type::Argument && msg == "app not found: "@ + m.selected[k],
{
}

/// During a tree walk, an entry matching an ignore pattern is passed over
/// — nothing is copied or entered for it — while a file entry matching no
/// pattern is copied to its mirrored place under the destination.
pub proof fn theorem_walk_honors_ignore(
    m: EngineModel,
    st: StageModel,
    k: int,
    a: int,
    f: int,
    stack: Seq<crate::engine::FrameModel>,
)
    requires
        st == (StageModel::WalkStep { k, a, f, stack }),
        stack.len() > 0,
        stack.last().next < stack.last().entries.len(),
    ensures
        m.entry_ignored(a, stack.last().entries[stack.last().next].name) ==> step_model(
            m,
            st,
            EventModel::Completed,
        ).1 is Nop,
        (!m.entry_ignored(a, stack.last().entries[stack.last().next].name)
            && !stack.last().entries[stack.last().next].is_dir) ==> step_model(
            m,
            st,
            EventModel::Completed,
        ).1 == (OpModel::CopyFile {
            src: crate::paths::joined(stack.last().src, stack.last().entries[stack.last().next].name),
            dest: crate::paths::joined(
                stack.last().dest,
                stack.last().entries[stack.last().next].name,
            ),
        }),
{
}

/// The other face of the ignore law: whenever a tree walk issues a copy,
/// the copied entry is one of the listing that no ignore pattern — of the
/// application or global — matches, and it goes to its mirrored place.
/// Nothing a pattern matches is ever copied under the destination.
pub proof fn theorem_walk_copies_only_unignored(m: EngineModel, st: StageModel, ev: EventModel)
    requires
        stage_inv(m, st),
    ensures
        st matches StageModel::WalkStep { a, stack, .. } ==> (ev is Completed ==> (step_model(
            m,
            st,
            ev,
        ).1 matches OpModel::CopyFile { src, dest } ==> (stack.len() > 0 && stack.last().next
            < stack.last().entries.len() && !m.entry_ignored(
            a,
            stack.last().entries[stack.last().next].name,
        ) && !stack.last().entries[stack.last().next].is_dir && src == crate::paths::joined(
            stack.last().src,
            stack.last().entries[stack.last().next].name,
        ) && dest == crate::paths::joined(
            stack.last().dest,
            stack.last().entries[stack.last().next].name,
        )))),
        st matches StageModel::WalkList { a, src: dir_src, dest: dir_dest, .. } ==> (ev matches
            EventModel::Listing { entries } ==> (step_model(m, st, ev).1 matches
            OpModel::CopyFile { src, dest } ==> (entries.len() > 0 && !m.entry_ignored(
            a,
            entries[0].name,
        ) && !entries[0].is_dir && src == crate::paths::joined(dir_src, entries[0].name) && dest
            == crate::paths::joined(dir_dest, entries[0].name)))),
{
}

/// The copy a backup issues for a live file under the root reads that
/// file and writes its mirrored place under the backup directory — and
/// that place carries back to the very same live path, which is why a
/// later setup restores it.
pub proof fn theorem_copy_round_trip(m: EngineModel, a: int, f: int)
    requires
        m.direction is Backup,
        0 <= a < m.apps.len(),
        0 <= f < m.apps[a].files.len(),
        crate::paths::under_root(m.root, m.live(a, f)),
    ensures
        m.src_of(a, f) == m.live(a, f),
        m.dest_of(a, f) == crate::paths::mapped(m.backup_dir, m.root, m.live(a, f)),
        crate::paths::under_root(m.backup_dir, m.dest_of(a, f)),
        crate::paths::mapped(m.root, m.backup_dir, m.dest_of(a, f)) == m.live(a, f),
{
    crate::paths::lemma_mapped_round_trip(m.backup_dir, m.root, m.live(a, f));
}

/// Backup and setup are mirror images: what one direction reads, the other
/// writes, file for file. With the path round trip
/// (`crate::paths::lemma_mapped_round_trip`) this is the shape of the
/// backup-then-restore round trip.
pub proof fn theorem_directions_mirror(m: EngineModel, m2: EngineModel, a: int, f: int)
    requires
        m.direction is Backup,
        m2.direction is Setup,
        m2.apps == m.apps,
        m2.root == m.root,
        m2.backup_dir == m.backup_dir,
    ensures
        m.src_of(a, f) == m2.dest_of(a, f),
        m.dest_of(a, f) == m2.src_of(a, f),
{
}

} // verus!
