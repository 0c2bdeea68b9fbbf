//! What holds of every run of the copy operation.

use vstd::prelude::*;
use crate::paths::{chain_of, is_base, lemma_chain, numbered, parent_dir, stripped, without_trailing};
use crate::winstall::{
    advance_spec, backup_of, folder_of, is_verbose, item_action, item_chain, item_phase,
    start_spec, target_of, incomplete_line, is_copy, item_count, item_path, item_of,
    makes_all, preserves, skip_line, wf, ActionV, BackupV, Event, ExecutionV, IoFailure,
    OperationV, OutcomeV, PhaseV, StepV,
};

verus! {

/// The state `s` with the backup policy of its copy operation replaced by `b`.
pub open spec fn with_backup(s: ExecutionV, b: BackupV) -> ExecutionV {
    match s.op {
        OperationV::CopyFiles {
            files,
            destination,
            preserve_timestamps,
            make_all_directories,
            verbose,
            ..
        } => ExecutionV {
            op: OperationV::CopyFiles {
                files,
                destination,
                backup: b,
                preserve_timestamps,
                make_all_directories,
                verbose,
            },
            ..s
        },
        OperationV::CopyFile {
            from,
            to,
            preserve_timestamps,
            make_all_directories,
            verbose,
            ..
        } => ExecutionV {
            op: OperationV::CopyFile {
                from,
                to,
                backup: b,
                preserve_timestamps,
                make_all_directories,
                verbose,
            },
            ..s
        },
        _ => s,
    }
}

/// What a file system that holds exactly the paths `existing` answers to a backup action.
pub open spec fn answer(a: ActionV, existing: Set<Seq<char>>) -> Event {
    match a {
        ActionV::ProbeBackup(p) => Event::Exists(existing.contains(p)),
        ActionV::CreateBackup(p) => if existing.contains(p) {
            Event::Failed(IoFailure::AlreadyExists)
        } else {
            Event::Done
        },
        _ => Event::Done,
    }
}

/// Performs at most `fuel` backup actions, starting with that of `st`, against `existing`.
pub open spec fn settle(s: ExecutionV, st: StepV, existing: Set<Seq<char>>, fuel: nat) -> (
    ExecutionV,
    StepV,
)
    decreases fuel,
{
    if fuel == 0 {
        (s, st)
    } else {
        match st.action {
            ActionV::ProbeBackup(_) | ActionV::CreateBackup(_) => {
                let (s2, st2) = advance_spec(s, answer(st.action, existing));
                settle(s2, st2, existing, (fuel - 1) as nat)
            },
            _ => (s, st),
        }
    }
}

/// From an open destination that already held content, the backup actions run against
/// `existing`, at most `fuel` of them.
pub open spec fn relocate(s: ExecutionV, existing: Set<Seq<char>>, fuel: nat) -> (
    ExecutionV,
    StepV,
) {
    let (s1, st1) = advance_spec(s, Event::Opened { existed: true });
    settle(s1, st1, existing, fuel)
}

/// When the destination held no content, the policy makes no difference: the copy starts at
/// once, with nothing reported and no backup, and only the policy itself differs between the
/// states that follow.
pub proof fn fresh_destination_ignores_policy(s: ExecutionV, b: BackupV)
    requires
        wf(s),
        s.phase is OpeningDestination,
    ensures
        advance_spec(with_backup(s, b), Event::Opened { existed: false }) == (
            with_backup(advance_spec(s, Event::Opened { existed: false }).0, b),
            advance_spec(s, Event::Opened { existed: false }).1,
        ),
        advance_spec(s, Event::Opened { existed: false }).0.phase == (PhaseV::Copying {
            outcome: None,
        }),
        advance_spec(s, Event::Opened { existed: false }).1 == (StepV {
            line: None,
            action: ActionV::CopyContent { restore_times: preserves(s.op) },
        }),
{
}

proof fn lemma_numbered_run(
    s: ExecutionV,
    existing: Set<Seq<char>>,
    n: nat,
    k: nat,
)
    requires
        is_copy(s.op),
        1 <= k <= n + 1,
        n < u64::MAX,
        s.phase == (PhaseV::BackingUp { path: numbered(s.target, k), index: Some(k) }),
        forall|j: nat| 1 <= j <= n ==> existing.contains(numbered(s.target, j)),
        !existing.contains(numbered(s.target, n + 1)),
    ensures
        settle(
            s,
            StepV { line: None, action: ActionV::CreateBackup(numbered(s.target, k)) },
            existing,
            (n + 2 - k) as nat,
        ).0.phase == (PhaseV::Copying { outcome: Some(OutcomeV::BackedUp(numbered(s.target, n + 1))) }),
        settle(
            s,
            StepV { line: None, action: ActionV::CreateBackup(numbered(s.target, k)) },
            existing,
            (n + 2 - k) as nat,
        ).1 == (StepV { line: None, action: ActionV::CopyContent { restore_times: preserves(s.op) } }),
    decreases n + 1 - k,
{
    let st = StepV { line: None, action: ActionV::CreateBackup(numbered(s.target, k)) };
    if k <= n {
        assert(existing.contains(numbered(s.target, k)));
        let (s2, st2) = advance_spec(s, answer(st.action, existing));
        assert(s2.phase == (PhaseV::BackingUp {
            path: numbered(s.target, k + 1),
            index: Some(k + 1),
        }));
        lemma_numbered_run(s2, existing, n, k + 1);
        assert(((n + 2 - k) - 1) as nat == (n + 2 - (k + 1)) as nat);
    } else {
        let (s2, st2) = advance_spec(s, answer(st.action, existing));
        assert(settle(s2, st2, existing, 0) == (s2, st2));
    }
}

/// Numbered backups count on: when `<dest>.~1~` up to `<dest>.~n~` exist and
/// `<dest>.~(n+1)~` does not, the content goes to `<dest>.~(n+1)~`, after the `n` taken
/// names are tried in order and none of them is reused; then the copy starts.
pub proof fn numbered_backup_follows_last(s: ExecutionV, existing: Set<Seq<char>>, n: nat)
    requires
        wf(s),
        s.phase is OpeningDestination,
        is_copy(s.op),
        backup_of(s.op) == BackupV::Numbered,
        n < u64::MAX,
        forall|j: nat| 1 <= j <= n ==> existing.contains(numbered(s.target, j)),
        !existing.contains(numbered(s.target, n + 1)),
    ensures
        relocate(s, existing, n + 1).0.phase == (PhaseV::Copying {
            outcome: Some(OutcomeV::BackedUp(numbered(s.target, n + 1))),
        }),
        relocate(s, existing, n + 1).1 == (StepV {
            line: None,
            action: ActionV::CopyContent { restore_times: preserves(s.op) },
        }),
{
    let (s1, st1) = advance_spec(s, Event::Opened { existed: true });
    assert(s1.target == s.target);
    lemma_numbered_run(s1, existing, n, 1);
    assert((n + 2 - 1) as nat == n + 1);
}

/// Whether the policy still has a say in the run from `s` and `st`.
pub open spec fn policy_settled(s: ExecutionV, st: StepV) -> bool {
    (st.action is ProbeBackup || st.action is CreateBackup) ==> s.phase is BackingUp
}

proof fn lemma_settle_ignores_policy(
    s: ExecutionV,
    st: StepV,
    existing: Set<Seq<char>>,
    fuel: nat,
    b: BackupV,
)
    requires
        is_copy(s.op),
        policy_settled(s, st),
    ensures
        settle(with_backup(s, b), st, existing, fuel) == (
            with_backup(settle(s, st, existing, fuel).0, b),
            settle(s, st, existing, fuel).1,
        ),
    decreases fuel,
{
    if fuel > 0 {
        match st.action {
            ActionV::ProbeBackup(_) | ActionV::CreateBackup(_) => {
                let e = answer(st.action, existing);
                let (s2, st2) = advance_spec(s, e);
                assert(advance_spec(with_backup(s, b), e) == (with_backup(s2, b), st2));
                lemma_settle_ignores_policy(s2, st2, existing, (fuel - 1) as nat, b);
            },
            _ => {},
        }
    }
}

/// The `Existing` policy is the numbered one when `<dest>.~1~` exists and the simple one with
/// its suffix otherwise: after its one extra action, the probe, the run goes exactly as under
/// that policy, and only the policy itself differs between the states.
pub proof fn existing_is_numbered_or_simple(
    s: ExecutionV,
    x: Seq<char>,
    existing: Set<Seq<char>>,
    fuel: nat,
)
    requires
        wf(s),
        s.phase is OpeningDestination,
        is_copy(s.op),
        backup_of(s.op) == BackupV::Existing(x),
    ensures
        existing.contains(numbered(s.target, 1)) ==> relocate(s, existing, fuel + 1) == (
            with_backup(relocate(with_backup(s, BackupV::Numbered), existing, fuel).0, backup_of(s.op)),
            relocate(with_backup(s, BackupV::Numbered), existing, fuel).1,
        ),
        !existing.contains(numbered(s.target, 1)) ==> relocate(s, existing, fuel + 1) == (
            with_backup(relocate(with_backup(s, BackupV::Simple(x)), existing, fuel).0, backup_of(s.op)),
            relocate(with_backup(s, BackupV::Simple(x)), existing, fuel).1,
        ),
{
    let p = if existing.contains(numbered(s.target, 1)) {
        BackupV::Numbered
    } else {
        BackupV::Simple(x)
    };
    let t = with_backup(s, p);
    let (s1, st1) = advance_spec(s, Event::Opened { existed: true });
    assert(st1.action == ActionV::ProbeBackup(numbered(s.target, 1)));
    let (s2, st2) = advance_spec(s1, answer(st1.action, existing));
    let (t1, tt1) = advance_spec(t, Event::Opened { existed: true });
    assert(s2 == with_backup(t1, backup_of(s.op)));
    assert(st2 == tt1);
    assert(policy_settled(t1, tt1));
    lemma_settle_ignores_policy(t1, tt1, existing, fuel, backup_of(s.op));
    assert(relocate(s, existing, fuel + 1) == settle(s2, st2, existing, fuel));
}

/// A source that is a directory is reported and counted as a failure; nothing of it is opened
/// or copied, and the run goes on with the next file.
pub proof fn directory_source_is_skipped(s: ExecutionV)
    requires
        wf(s),
        s.phase is Inspect,
    ensures
        ({
            let (s1, st) = advance_spec(s, Event::Directory(true));
            &&& st.line == Some(skip_line(without_trailing(item_of(s.op, s.index as int))))
            &&& !s1.ok
            &&& if s.index + 1 < item_count(s.op) {
                &&& s1.index == s.index + 1
                &&& s1.phase is Inspect
                &&& st.action == ActionV::CheckDirectory(item_path(s.op, s.container, s.index as int + 1))
            } else {
                &&& s1.phase is Finished
                &&& st.action == ActionV::Finish(false)
            }
        }),
{
}

/// When missing parents are not to be made, only the copies' directory itself is created;
/// when a parent is missing, the file is reported and counted as a failure, and the run goes on
/// with the next file.
pub proof fn missing_parent_skips_file(s: ExecutionV)
    requires
        wf(s),
        s.phase is OpeningSource,
        s.op is CopyFiles,
        !makes_all(s.op),
    ensures
        ({
            let (s1, st1) = advance_spec(s, Event::Done);
            let folder = folder_of(s.op, s.container);
            let (s2, st2) = advance_spec(s1, Event::Failed(IoFailure::NotFound));
            &&& st1.action == ActionV::CreateDirectory(folder)
            &&& st2.line == Some(incomplete_line(stripped(folder, s.container)))
            &&& !s2.ok
            &&& if s.index + 1 < item_count(s.op) {
                s2.index == s.index + 1 && s2.phase is Inspect
            } else {
                st2.action == ActionV::Finish(false)
            }
        }),
{
}

/// What a file system whose directories are `dirs` answers to creating `p`: it is made when
/// the directory that should hold it exists.
pub open spec fn made(p: Seq<char>, dirs: Set<Seq<char>>) -> Event {
    if dirs.contains(p) {
        Event::Failed(IoFailure::AlreadyExists)
    } else if is_base(parent_dir(p)) || dirs.contains(parent_dir(p)) {
        Event::Done
    } else {
        Event::Failed(IoFailure::NotFound)
    }
}

/// The directories after `p` was to be created.
pub open spec fn grown(p: Seq<char>, dirs: Set<Seq<char>>) -> Set<Seq<char>> {
    if made(p, dirs) == Event::Done {
        dirs.insert(p)
    } else {
        dirs
    }
}

/// Performs at most `fuel` directory creations, starting with that of `st`, on a file system
/// whose directories are `dirs`; with the directories there afterwards.
pub open spec fn build(s: ExecutionV, st: StepV, dirs: Set<Seq<char>>, fuel: nat) -> (
    ExecutionV,
    StepV,
    Set<Seq<char>>,
)
    decreases fuel,
{
    if fuel == 0 {
        (s, st, dirs)
    } else {
        match st.action {
            ActionV::CreateDirectory(p) => {
                let (s2, st2) = advance_spec(s, made(p, dirs));
                build(s2, st2, grown(p, dirs), (fuel - 1) as nat)
            },
            _ => (s, st, dirs),
        }
    }
}

proof fn lemma_build(s: ExecutionV, dirs: Set<Seq<char>>, k: nat)
    requires
        is_copy(s.op),
        s.phase == (PhaseV::EnsuringDirectory { step: k }),
        k < s.chain.len(),
        forall|j: int| 0 <= j < k ==> dirs.contains(#[trigger] s.chain[j]),
        k == 0 ==> is_base(parent_dir(s.chain[0])) || dirs.contains(parent_dir(s.chain[0])),
        forall|j: int| 1 <= j < s.chain.len() ==> parent_dir(#[trigger] s.chain[j]) == s.chain[j
            - 1],
    ensures
        ({
            let (s2, st2, d2) = build(
                s,
                StepV { line: None, action: ActionV::CreateDirectory(s.chain[k as int]) },
                dirs,
                (s.chain.len() - k) as nat,
            );
            &&& s2.phase is OpeningDestination
            &&& st2.action == ActionV::OpenDestination(s.target)
            &&& s2.ok == s.ok
            &&& forall|j: int| 0 <= j < s.chain.len() ==> d2.contains(#[trigger] s.chain[j])
        }),
    decreases s.chain.len() - k,
{
    let p = s.chain[k as int];
    if k > 0 {
        assert(parent_dir(p) == s.chain[k - 1]);
        assert(dirs.contains(s.chain[k - 1]));
    }
    let e = made(p, dirs);
    let d1 = grown(p, dirs);
    assert(d1.contains(p));
    let (s1, st1) = advance_spec(s, e);
    if k + 1 < s.chain.len() {
        assert forall|j: int| 0 <= j < k + 1 implies d1.contains(#[trigger] s.chain[j]) by {
            if j < k {
                assert(dirs.contains(s.chain[j]));
            }
        }
        lemma_build(s1, d1, k + 1);
        assert((s.chain.len() - k - 1) as nat == (s1.chain.len() - (k + 1)) as nat);
    } else {
        assert(build(s1, st1, d1, 0) == (s1, st1, d1));
        assert forall|j: int| 0 <= j < s.chain.len() implies d1.contains(#[trigger] s.chain[j]) by {
            if j < k {
                assert(dirs.contains(s.chain[j]));
            }
        }
    }
}

/// When missing parents are to be made, every directory down to the copies' directory is
/// created in turn, each inside the one before, and the copy goes on with the destination:
/// provided that the directory holding the outermost of them exists.
pub proof fn all_parents_are_made(s: ExecutionV, dirs: Set<Seq<char>>)
    requires
        wf(s),
        s.phase is OpeningSource,
        makes_all(s.op),
        is_base(parent_dir(chain_of(folder_of(s.op, s.container))[0])) || dirs.contains(
            parent_dir(chain_of(folder_of(s.op, s.container))[0]),
        ),
    ensures
        ({
            let c = chain_of(folder_of(s.op, s.container));
            let (s1, st1) = advance_spec(s, Event::Done);
            let (s2, st2, d2) = build(s1, st1, dirs, c.len());
            &&& st1.action == ActionV::CreateDirectory(c[0])
            &&& s2.phase is OpeningDestination
            &&& st2.action == ActionV::OpenDestination(s.target)
            &&& s2.ok == s.ok
            &&& forall|k: int| 0 <= k < c.len() ==> d2.contains(#[trigger] c[k])
            &&& c.last() == folder_of(s.op, s.container)
        }),
{
    let c = chain_of(folder_of(s.op, s.container));
    lemma_chain(folder_of(s.op, s.container));
    let (s1, st1) = advance_spec(s, Event::Done);
    assert(s1.chain == c);
    lemma_build(s1, dirs, 0);
    assert((c.len() - 0) as nat == c.len());
}

/// A run succeeds only if every item does: once an item has failed, no later step counts the
/// run as a success again.
pub proof fn failure_is_kept(s: ExecutionV, e: Event)
    requires
        wf(s),
    ensures
        advance_spec(s, e).0.ok ==> s.ok,
        advance_spec(s, e).1.action matches ActionV::Finish(success) ==> (success ==> s.ok),
{
}

/// The source's times are recorded when it is opened, before anything is written, and given
/// to the destination with the copy, exactly when the request preserves timestamps.
pub proof fn timestamps_follow_request(s: ExecutionV)
    requires
        wf(s),
        is_copy(s.op),
        s.phase is Inspect,
    ensures
        advance_spec(s, Event::Directory(false)).1.action is OpenSource ==> advance_spec(
            s,
            Event::Directory(false),
        ).1.action->snapshot_times == preserves(s.op),
        advance_spec(ExecutionV { phase: PhaseV::OpeningDestination, ..s }, Event::Opened {
            existed: false,
        }).1.action == (ActionV::CopyContent { restore_times: preserves(s.op) }),
        advance_spec(ExecutionV { phase: PhaseV::BackingUp { path: s.target, index: None }, ..s }, Event::Done).1.action
            == (ActionV::CopyContent { restore_times: preserves(s.op) }),
{
}

/// The steps of a run from state `s` on the events `es`, in order, and the state it ends in.
pub open spec fn replay(s: ExecutionV, es: Seq<Event>) -> (ExecutionV, Seq<StepV>)
    decreases es.len(),
{
    if es.len() == 0 {
        (s, Seq::empty())
    } else {
        let (s1, st1) = advance_spec(s, es[0]);
        let (s2, sts) = replay(s1, es.drop_first());
        (s2, seq![st1] + sts)
    }
}

proof fn lemma_same_request(s: ExecutionV, b: BackupV)
    requires
        is_copy(s.op),
    ensures
        is_copy(with_backup(s, b).op),
        item_count(with_backup(s, b).op) == item_count(s.op),
        is_verbose(with_backup(s, b).op) == is_verbose(s.op),
        preserves(with_backup(s, b).op) == preserves(s.op),
        makes_all(with_backup(s, b).op) == makes_all(s.op),
        folder_of(with_backup(s, b).op, s.container) == folder_of(s.op, s.container),
        forall|i: int| #[trigger] item_of(with_backup(s, b).op, i) == item_of(s.op, i),
        forall|i: int|
            #[trigger] target_of(with_backup(s, b).op, s.container, i) == target_of(
                s.op,
                s.container,
                i,
            ),
        forall|i: int|
            #[trigger] item_action(with_backup(s, b).op, s.container, i) == item_action(
                s.op,
                s.container,
                i,
            ),
        forall|i: int|
            #[trigger] item_chain(with_backup(s, b).op, s.container, i) == item_chain(
                s.op,
                s.container,
                i,
            ),
        item_phase(with_backup(s, b).op) == item_phase(s.op),
        backup_of(with_backup(s, b).op) == b,
{
}

proof fn lemma_step_ignores_policy(s: ExecutionV, e: Event, b: BackupV)
    requires
        is_copy(s.op),
        !(s.phase is Probing),
        !(s.phase is OpeningDestination && e == (Event::Opened { existed: true })),
    ensures
        advance_spec(with_backup(s, b), e) == (
            with_backup(advance_spec(s, e).0, b),
            advance_spec(s, e).1,
        ),
        !(advance_spec(s, e).0.phase is Probing),
        is_copy(advance_spec(s, e).0.op),
{
    lemma_same_request(s, b);
}

/// When no destination held content, the backup policy makes no difference to a run: from
/// the start, on any events in which no opened destination held content, every step is the
/// same under every policy, and so is every state but for the policy itself.
pub proof fn fresh_run_ignores_policy(
    op: OperationV,
    container: Seq<char>,
    b: BackupV,
    es: Seq<Event>,
)
    requires
        is_copy(op),
        forall|i: int| 0 <= i < es.len() ==> es[i] != (Event::Opened { existed: true }),
    ensures
        ({
            let (s0, st0) = start_spec(op, container);
            let (t0, tt0) = start_spec(with_backup(s0, b).op, container);
            &&& t0 == with_backup(s0, b)
            &&& tt0 == st0
            &&& replay(t0, es).1 == replay(s0, es).1
            &&& replay(t0, es).0 == with_backup(replay(s0, es).0, b)
        }),
{
    let (s0, st0) = start_spec(op, container);
    lemma_same_request(s0, b);
    lemma_replay_ignores_policy(s0, es, b);
}

proof fn lemma_replay_ignores_policy(s: ExecutionV, es: Seq<Event>, b: BackupV)
    requires
        is_copy(s.op),
        !(s.phase is Probing),
        forall|i: int| 0 <= i < es.len() ==> es[i] != (Event::Opened { existed: true }),
    ensures
        replay(with_backup(s, b), es).1 == replay(s, es).1,
        replay(with_backup(s, b), es).0 == with_backup(replay(s, es).0, b),
    decreases es.len(),
{
    if es.len() > 0 {
        lemma_step_ignores_policy(s, es[0], b);
        let (s1, st1) = advance_spec(s, es[0]);
        let rest = es.drop_first();
        assert forall|i: int| 0 <= i < rest.len() implies rest[i] != (Event::Opened {
            existed: true,
        }) by {
            assert(rest[i] == es[i + 1]);
        }
        lemma_replay_ignores_policy(s1, rest, b);
    }
}

} // verus!
