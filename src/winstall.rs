//! The copy and directory operations, run as a state machine.
//!
//! The caller performs each [`Action`] on the file system and hands back what happened as an
//! [`Event`]; [`Execution::advance`] decides what comes next. Every decision of the operation
//! (which paths are touched, how existing content is backed up, which failures skip a file and
//! which end the run, which lines are reported) is made here.

use vstd::prelude::*;
use crate::paths::{
    add_suffix, file_name, final_name, join, joined, numbered, numbered_backup, parent,
    parent_dir, strip_prefix, stripped, suffixed, trim_separators, without_trailing, chain_of,
    directory_chain, lemma_chain,
};
use crate::text::{cat, clone_string, opt_view};

verus! {

/// How existing content at a destination is kept before it is overwritten.
#[derive(Debug, PartialEq)]
pub enum Backup {
    /// The content is discarded.
    Off,
    /// The content moves to `<name>.~<n>~`, with `n` one past the backups already there.
    Numbered,
    /// The content moves to `<name><suffix>`.
    Simple(String),
    /// Numbered when `<name>.~1~` exists, simple with the suffix otherwise.
    Existing(String),
}

/// What became of a destination's existing content.
#[derive(Debug, PartialEq)]
pub enum BackupOutcome {
    /// The content was discarded in place.
    Removed(String),
    /// The content was moved to the backup at this path.
    BackedUp(String),
}

/// A fully resolved request.
#[derive(Debug, PartialEq)]
pub enum Operation {
    /// Copy each file into `destination`, under its own name.
    CopyFiles {
        files: Vec<String>,
        destination: String,
        backup: Backup,
        preserve_timestamps: bool,
        make_all_directories: bool,
        verbose: bool,
    },
    /// Copy the file `from` to the path `to`.
    CopyFile {
        from: String,
        to: String,
        backup: Backup,
        preserve_timestamps: bool,
        make_all_directories: bool,
        verbose: bool,
    },
    /// Create each directory with all of its missing parents.
    CreateDirectories { directories: Vec<String>, verbose: bool },
}

/// The kind of a failed file system call.
#[derive(Clone, Copy, PartialEq, Eq, Debug)]
pub enum IoFailure {
    NotFound,
    PermissionDenied,
    AlreadyExists,
    Other,
}

/// What happened when the last action was performed.
#[derive(Clone, Copy, PartialEq, Eq, Debug)]
pub enum Event {
    /// Answer to `CheckDirectory`: whether the path is a directory.
    Directory(bool),
    /// Answer to `ProbeBackup`: whether the path exists.
    Exists(bool),
    /// Answer to `OpenDestination`: the file is open; `existed` tells whether it already
    /// held content.
    Opened { existed: bool },
    /// The action succeeded.
    Done,
    /// The action failed.
    Failed(IoFailure),
}

/// What the caller performs next.
#[derive(Debug, PartialEq)]
pub enum Action {
    /// Tell whether `path` is a directory.
    CheckDirectory { path: String },
    /// Open `path` for reading; when `snapshot_times` holds, record its accessed and
    /// modified times.
    OpenSource { path: String, snapshot_times: bool },
    /// Create the directory `path`, in a directory that is expected to exist.
    CreateDirectory { path: String },
    /// Open `path` for reading and writing, creating it if absent.
    OpenDestination { path: String },
    /// Tell whether `path` exists.
    ProbeBackup { path: String },
    /// Create `path` exclusively, copy the open destination's content into it, then truncate
    /// the destination and rewind it.
    CreateBackup { path: String },
    /// Copy the open source into the open destination; when `restore_times` holds, then give
    /// the destination the recorded times.
    CopyContent { restore_times: bool },
    /// The run is over; `success` holds when no file was skipped.
    Finish { success: bool },
    /// An unrecoverable failure ends the run.
    Abort,
}

/// One decision: a diagnostic line to report, if any, and the next action.
#[derive(Debug, PartialEq)]
pub struct Step {
    pub line: Option<String>,
    pub action: Action,
}

/// Where an execution stands within the current item.
pub enum Phase {
    Inspect,
    OpeningSource,
    EnsuringDirectory { step: usize },
    OpeningDestination,
    Probing,
    BackingUp { path: String, index: Option<u64> },
    Copying { outcome: Option<BackupOutcome> },
    Creating { step: usize },
    Finished,
    Aborted,
}

/// An operation in progress.
pub struct Execution {
    operation: Operation,
    container: String,
    index: usize,
    ok: bool,
    target: String,
    chain: Vec<String>,
    phase: Phase,
}

// ---------------------------------------------------------------------------------------------
// The model.

pub enum BackupV {
    Off,
    Numbered,
    Simple(Seq<char>),
    Existing(Seq<char>),
}

pub enum OperationV {
    CopyFiles {
        files: Seq<Seq<char>>,
        destination: Seq<char>,
        backup: BackupV,
        preserve_timestamps: bool,
        make_all_directories: bool,
        verbose: bool,
    },
    CopyFile {
        from: Seq<char>,
        to: Seq<char>,
        backup: BackupV,
        preserve_timestamps: bool,
        make_all_directories: bool,
        verbose: bool,
    },
    CreateDirectories { directories: Seq<Seq<char>>, verbose: bool },
}

pub enum OutcomeV {
    Removed(Seq<char>),
    BackedUp(Seq<char>),
}

pub enum ActionV {
    CheckDirectory(Seq<char>),
    OpenSource { path: Seq<char>, snapshot_times: bool },
    CreateDirectory(Seq<char>),
    OpenDestination(Seq<char>),
    ProbeBackup(Seq<char>),
    CreateBackup(Seq<char>),
    CopyContent { restore_times: bool },
    Finish(bool),
    Abort,
}

pub struct StepV {
    pub line: Option<Seq<char>>,
    pub action: ActionV,
}

pub enum PhaseV {
    Inspect,
    OpeningSource,
    EnsuringDirectory { step: nat },
    OpeningDestination,
    Probing,
    BackingUp { path: Seq<char>, index: Option<nat> },
    Copying { outcome: Option<OutcomeV> },
    Creating { step: nat },
    Finished,
    Aborted,
}

pub struct ExecutionV {
    pub op: OperationV,
    pub container: Seq<char>,
    pub index: nat,
    pub ok: bool,
    pub target: Seq<char>,
    pub chain: Seq<Seq<char>>,
    pub phase: PhaseV,
}


impl View for Backup {
    type V = BackupV;

    open spec fn view(&self) -> BackupV {
        match self {
            Backup::Off => BackupV::Off,
            Backup::Numbered => BackupV::Numbered,
            Backup::Simple(s) => BackupV::Simple(s@),
            Backup::Existing(s) => BackupV::Existing(s@),
        }
    }
}

pub open spec fn strings_view(v: Vec<String>) -> Seq<Seq<char>> {
    v@.map_values(|s: String| s@)
}

impl View for BackupOutcome {
    type V = OutcomeV;

    open spec fn view(&self) -> OutcomeV {
        match self {
            BackupOutcome::Removed(p) => OutcomeV::Removed(p@),
            BackupOutcome::BackedUp(p) => OutcomeV::BackedUp(p@),
        }
    }
}

impl View for Operation {
    type V = OperationV;

    open spec fn view(&self) -> OperationV {
        match self {
            Operation::CopyFiles {
                files,
                destination,
                backup,
                preserve_timestamps,
                make_all_directories,
                verbose,
            } => OperationV::CopyFiles {
                files: strings_view(*files),
                destination: destination@,
                backup: backup@,
                preserve_timestamps: *preserve_timestamps,
                make_all_directories: *make_all_directories,
                verbose: *verbose,
            },
            Operation::CopyFile {
                from,
                to,
                backup,
                preserve_timestamps,
                make_all_directories,
                verbose,
            } => OperationV::CopyFile {
                from: from@,
                to: to@,
                backup: backup@,
                preserve_timestamps: *preserve_timestamps,
                make_all_directories: *make_all_directories,
                verbose: *verbose,
            },
            Operation::CreateDirectories { directories, verbose } => OperationV::CreateDirectories {
                directories: strings_view(*directories),
                verbose: *verbose,
            },
        }
    }
}

impl View for Action {
    type V = ActionV;

    open spec fn view(&self) -> ActionV {
        match self {
            Action::CheckDirectory { path } => ActionV::CheckDirectory(path@),
            Action::OpenSource { path, snapshot_times } => ActionV::OpenSource {
                path: path@,
                snapshot_times: *snapshot_times,
            },
            Action::CreateDirectory { path } => ActionV::CreateDirectory(path@),
            Action::OpenDestination { path } => ActionV::OpenDestination(path@),
            Action::ProbeBackup { path } => ActionV::ProbeBackup(path@),
            Action::CreateBackup { path } => ActionV::CreateBackup(path@),
            Action::CopyContent { restore_times } => ActionV::CopyContent {
                restore_times: *restore_times,
            },
            Action::Finish { success } => ActionV::Finish(*success),
            Action::Abort => ActionV::Abort,
        }
    }
}

impl View for Step {
    type V = StepV;

    open spec fn view(&self) -> StepV {
        StepV { line: opt_view(self.line), action: self.action@ }
    }
}

impl View for Phase {
    type V = PhaseV;

    open spec fn view(&self) -> PhaseV {
        match self {
            Phase::Inspect => PhaseV::Inspect,
            Phase::OpeningSource => PhaseV::OpeningSource,
            Phase::EnsuringDirectory { step } => PhaseV::EnsuringDirectory { step: *step as nat },
            Phase::OpeningDestination => PhaseV::OpeningDestination,
            Phase::Probing => PhaseV::Probing,
            Phase::BackingUp { path, index } => PhaseV::BackingUp {
                path: path@,
                index: match index {
                    Some(n) => Some(*n as nat),
                    None => None,
                },
            },
            Phase::Copying { outcome } => PhaseV::Copying {
                outcome: match outcome {
                    Some(o) => Some(o@),
                    None => None,
                },
            },
            Phase::Creating { step } => PhaseV::Creating { step: *step as nat },
            Phase::Finished => PhaseV::Finished,
            Phase::Aborted => PhaseV::Aborted,
        }
    }
}

impl View for Execution {
    type V = ExecutionV;

    closed spec fn view(&self) -> ExecutionV {
        ExecutionV {
            op: self.operation@,
            container: self.container@,
            index: self.index as nat,
            ok: self.ok,
            target: self.target@,
            chain: strings_view(self.chain),
            phase: self.phase@,
        }
    }
}

// The diagnostic lines.

pub open spec fn skip_line(file: Seq<char>) -> Seq<char> {
    "winstall: skipping directory '"@ + file + "'"@
}

pub open spec fn missing_line(file: Seq<char>) -> Seq<char> {
    "winstall: cannot stat '"@ + file + "': No such file or directory"@
}

pub open spec fn unreadable_line(file: Seq<char>) -> Seq<char> {
    "winstall: cannot open '"@ + file + "' for reading: Permission denied"@
}

pub open spec fn creating_line(dir: Seq<char>) -> Seq<char> {
    "winstall: creating directory '"@ + dir + "'"@
}

pub open spec fn incomplete_line(dir: Seq<char>) -> Seq<char> {
    "winstall: cannot create regular file '"@ + dir + "': No such file or directory"@
}

pub open spec fn dir_denied_line(dir: Seq<char>) -> Seq<char> {
    "winstall: cannot create directory '"@ + dir + "': Permission denied"@
}

pub open spec fn open_missing_line(file: Seq<char>) -> Seq<char> {
    "winstall: cannot open file to read '"@ + file + "': No such file or directory"@
}

pub open spec fn open_denied_line(file: Seq<char>) -> Seq<char> {
    "winstall: cannot open file to read '"@ + file + "': Permission denied"@
}

pub open spec fn dir_missing_line(dir: Seq<char>) -> Seq<char> {
    "winstall: cannot create directory '"@ + dir + "': No such file or directory"@
}

pub open spec fn dest_denied_line(file: Seq<char>) -> Seq<char> {
    "winstall: cannot stat '"@ + file + "': Permission denied"@
}

pub open spec fn removed_line(file: Seq<char>) -> Seq<char> {
    "removed '"@ + file + "'"@
}

pub open spec fn copied_line(from: Seq<char>, to: Seq<char>, backup: Option<Seq<char>>) -> Seq<
    char,
> {
    "'"@ + from + "' -> '"@ + to + "'"@ + match backup {
        Some(b) => " (backup: '"@ + b + "')"@,
        None => Seq::empty(),
    }
}

// The transitions.

pub open spec fn item_count(op: OperationV) -> nat {
    match op {
        OperationV::CopyFiles { files, .. } => files.len(),
        OperationV::CopyFile { .. } => 1,
        OperationV::CreateDirectories { directories, .. } => directories.len(),
    }
}

pub open spec fn is_verbose(op: OperationV) -> bool {
    match op {
        OperationV::CopyFiles { verbose, .. } => verbose,
        OperationV::CopyFile { verbose, .. } => verbose,
        OperationV::CreateDirectories { verbose, .. } => verbose,
    }
}

/// Whether the operation copies files.
pub open spec fn is_copy(op: OperationV) -> bool {
    !(op is CreateDirectories)
}

/// The `i`-th item as the request names it: a source file, or a directory to create.
pub open spec fn item_of(op: OperationV, i: int) -> Seq<char> {
    match op {
        OperationV::CopyFiles { files, .. } => files[i],
        OperationV::CopyFile { from, .. } => from,
        OperationV::CreateDirectories { directories, .. } => directories[i],
    }
}

/// The path that an operation's `i`-th item names, read relative to `container`.
pub open spec fn item_path(op: OperationV, container: Seq<char>, i: int) -> Seq<char> {
    joined(container, item_of(op, i))
}

/// The directory that receives the copies.
pub open spec fn folder_of(op: OperationV, container: Seq<char>) -> Seq<char> {
    match op {
        OperationV::CopyFiles { destination, .. } => joined(container, destination),
        OperationV::CopyFile { to, .. } => joined(container, parent_dir(to)),
        _ => Seq::empty(),
    }
}

/// Where the `i`-th source is copied to: the destination directory joined with the source's
/// name, or the path that the request gives; `None` when the source names no file.
pub open spec fn target_of(op: OperationV, container: Seq<char>, i: int) -> Option<Seq<char>> {
    match op {
        OperationV::CopyFiles { files, .. } => match final_name(files[i]) {
            Some(name) => Some(joined(folder_of(op, container), name)),
            None => None,
        },
        OperationV::CopyFile { to, .. } => Some(joined(container, to)),
        _ => None,
    }
}

pub open spec fn backup_of(op: OperationV) -> BackupV {
    match op {
        OperationV::CopyFiles { backup, .. } => backup,
        OperationV::CopyFile { backup, .. } => backup,
        _ => BackupV::Off,
    }
}

pub open spec fn preserves(op: OperationV) -> bool {
    match op {
        OperationV::CopyFiles { preserve_timestamps, .. } => preserve_timestamps,
        OperationV::CopyFile { preserve_timestamps, .. } => preserve_timestamps,
        _ => false,
    }
}

pub open spec fn makes_all(op: OperationV) -> bool {
    match op {
        OperationV::CopyFiles { make_all_directories, .. } => make_all_directories,
        OperationV::CopyFile { make_all_directories, .. } => make_all_directories,
        _ => false,
    }
}

/// The directories to create for the `i`-th item: nothing yet for a copy.
pub open spec fn item_chain(op: OperationV, container: Seq<char>, i: int) -> Seq<Seq<char>> {
    if is_copy(op) {
        Seq::empty()
    } else {
        chain_of(item_path(op, container, i))
    }
}

/// The first action on the `i`-th item.
pub open spec fn item_action(op: OperationV, container: Seq<char>, i: int) -> ActionV {
    if is_copy(op) {
        ActionV::CheckDirectory(item_path(op, container, i))
    } else {
        ActionV::CreateDirectory(chain_of(item_path(op, container, i))[0])
    }
}

pub open spec fn item_phase(op: OperationV) -> PhaseV {
    if is_copy(op) {
        PhaseV::Inspect
    } else {
        PhaseV::Creating { step: 0 }
    }
}

/// Go on with item `i`, or finish when there is none.
pub open spec fn begin_at(s: ExecutionV, i: nat, ok: bool, line: Option<Seq<char>>) -> (
    ExecutionV,
    StepV,
) {
    if i < item_count(s.op) {
        (
            ExecutionV {
                index: i,
                ok,
                chain: item_chain(s.op, s.container, i as int),
                phase: item_phase(s.op),
                ..s
            },
            StepV { line, action: item_action(s.op, s.container, i as int) },
        )
    } else {
        (
            ExecutionV { ok, phase: PhaseV::Finished, ..s },
            StepV { line, action: ActionV::Finish(ok) },
        )
    }
}

/// The state in which an operation starts, and its first step.
pub open spec fn start_spec(op: OperationV, container: Seq<char>) -> (ExecutionV, StepV) {
    begin_at(
        ExecutionV {
            op,
            container,
            index: 0,
            ok: true,
            target: Seq::empty(),
            chain: Seq::empty(),
            phase: PhaseV::Finished,
        },
        0,
        true,
        None,
    )
}

pub open spec fn abort(s: ExecutionV) -> (ExecutionV, StepV) {
    (ExecutionV { phase: PhaseV::Aborted, ..s }, StepV { line: None, action: ActionV::Abort })
}

pub open spec fn go(s: ExecutionV, phase: PhaseV, line: Option<Seq<char>>, action: ActionV) -> (
    ExecutionV,
    StepV,
) {
    (ExecutionV { phase, ..s }, StepV { line, action })
}

/// The next item, with the current one counted as failed.
pub open spec fn skip(s: ExecutionV, line: Seq<char>) -> (ExecutionV, StepV) {
    begin_at(s, s.index + 1, false, Some(line))
}

pub open spec fn verbose_line(s: ExecutionV, line: Seq<char>) -> Option<Seq<char>> {
    if is_verbose(s.op) {
        Some(line)
    } else {
        None
    }
}

/// Where the content of the target goes under `backup`, and the action that starts it.
pub open spec fn backup_start(s: ExecutionV, backup: BackupV) -> (ExecutionV, StepV) {
    match backup {
        BackupV::Off => go(
            s,
            PhaseV::Copying { outcome: Some(OutcomeV::Removed(s.target)) },
            verbose_line(s, removed_line(stripped(s.target, s.container))),
            ActionV::CopyContent { restore_times: preserves(s.op) },
        ),
        BackupV::Numbered => go(
            s,
            PhaseV::BackingUp { path: numbered(s.target, 1), index: Some(1) },
            None,
            ActionV::CreateBackup(numbered(s.target, 1)),
        ),
        BackupV::Simple(x) => go(
            s,
            PhaseV::BackingUp { path: suffixed(s.target, x), index: None },
            None,
            ActionV::CreateBackup(suffixed(s.target, x)),
        ),
        BackupV::Existing(_) => go(
            s,
            PhaseV::Probing,
            None,
            ActionV::ProbeBackup(numbered(s.target, 1)),
        ),
    }
}

/// The directories to create so that the copies' directory exists: the whole chain down to
/// it when missing parents are to be made, else that directory alone.
pub open spec fn folder_chain(op: OperationV, container: Seq<char>) -> Seq<Seq<char>> {
    if makes_all(op) {
        chain_of(folder_of(op, container))
    } else {
        seq![folder_of(op, container)]
    }
}

/// After link `k` of the chain exists: the next link, or the destination once the chain is
/// done.
pub open spec fn ensure_next(s: ExecutionV, k: nat, line: Option<Seq<char>>) -> (
    ExecutionV,
    StepV,
) {
    if k + 1 < s.chain.len() {
        go(
            s,
            PhaseV::EnsuringDirectory { step: k + 1 },
            None,
            ActionV::CreateDirectory(s.chain[k as int + 1]),
        )
    } else {
        go(s, PhaseV::OpeningDestination, line, ActionV::OpenDestination(s.target))
    }
}

/// After link `k` of the chain exists: the next link, or the next item once the chain is done.
pub open spec fn create_next(s: ExecutionV, k: nat, line: Option<Seq<char>>) -> (
    ExecutionV,
    StepV,
) {
    if k + 1 < s.chain.len() {
        go(s, PhaseV::Creating { step: k + 1 }, None, ActionV::CreateDirectory(s.chain[k as int + 1]))
    } else {
        begin_at(s, s.index + 1, s.ok, line)
    }
}

/// What a copy in state `s` does on `e`: its next state and step.
pub open spec fn advance_copy_spec(s: ExecutionV, e: Event) -> (ExecutionV, StepV) {
    let file = item_of(s.op, s.index as int);
    let folder = folder_of(s.op, s.container);
    let restore_times = preserves(s.op);
    match s.phase {
        PhaseV::Inspect => match e {
            Event::Directory(true) => skip(s, skip_line(without_trailing(file))),
            Event::Directory(false) => match target_of(s.op, s.container, s.index as int) {
                Some(target) => go(
                    ExecutionV { target, ..s },
                    PhaseV::OpeningSource,
                    None,
                    ActionV::OpenSource {
                        path: joined(s.container, file),
                        snapshot_times: restore_times,
                    },
                ),
                None => abort(s),
            },
            _ => abort(s),
        },
        PhaseV::OpeningSource => match e {
            Event::Done => go(
                ExecutionV { chain: folder_chain(s.op, s.container), ..s },
                PhaseV::EnsuringDirectory { step: 0 },
                None,
                ActionV::CreateDirectory(folder_chain(s.op, s.container)[0]),
            ),
            Event::Failed(IoFailure::NotFound) => skip(
                s,
                if s.op is CopyFile {
                    open_missing_line(stripped(file, s.container))
                } else {
                    missing_line(stripped(file, s.container))
                },
            ),
            Event::Failed(IoFailure::PermissionDenied) => skip(
                s,
                if s.op is CopyFile {
                    open_denied_line(stripped(file, s.container))
                } else {
                    unreadable_line(stripped(file, s.container))
                },
            ),
            _ => abort(s),
        },
        PhaseV::EnsuringDirectory { step } => match e {
            Event::Done => ensure_next(
                s,
                step,
                verbose_line(s, creating_line(stripped(folder, s.container))),
            ),
            Event::Failed(IoFailure::AlreadyExists) => ensure_next(s, step, None),
            Event::Failed(IoFailure::NotFound) => skip(
                s,
                if s.op is CopyFile {
                    dir_missing_line(stripped(folder, s.container))
                } else {
                    incomplete_line(stripped(folder, s.container))
                },
            ),
            Event::Failed(IoFailure::PermissionDenied) => skip(
                s,
                dir_denied_line(stripped(folder, s.container)),
            ),
            _ => abort(s),
        },
        PhaseV::OpeningDestination => match e {
            Event::Opened { existed: false } => go(
                s,
                PhaseV::Copying { outcome: None },
                None,
                ActionV::CopyContent { restore_times },
            ),
            Event::Opened { existed: true } => backup_start(s, backup_of(s.op)),
            Event::Failed(IoFailure::PermissionDenied) => skip(
                s,
                dest_denied_line(stripped(s.target, s.container)),
            ),
            _ => abort(s),
        },
        PhaseV::Probing => match (e, backup_of(s.op)) {
            (Event::Exists(true), _) => backup_start(s, BackupV::Numbered),
            (Event::Exists(false), BackupV::Existing(x)) => backup_start(s, BackupV::Simple(x)),
            _ => abort(s),
        },
        PhaseV::BackingUp { path, index } => match (e, index) {
            (Event::Done, _) => go(
                s,
                PhaseV::Copying { outcome: Some(OutcomeV::BackedUp(path)) },
                None,
                ActionV::CopyContent { restore_times },
            ),
            (Event::Failed(IoFailure::AlreadyExists), Some(n)) => if n < u64::MAX {
                go(
                    s,
                    PhaseV::BackingUp { path: numbered(s.target, n + 1), index: Some(n + 1) },
                    None,
                    ActionV::CreateBackup(numbered(s.target, n + 1)),
                )
            } else {
                abort(s)
            },
            _ => abort(s),
        },
        PhaseV::Copying { outcome } => match e {
            Event::Done => begin_at(
                s,
                s.index + 1,
                s.ok,
                verbose_line(
                    s,
                    copied_line(
                        stripped(file, s.container),
                        stripped(s.target, s.container),
                        match outcome {
                            Some(OutcomeV::BackedUp(b)) => Some(stripped(b, s.container)),
                            _ => None,
                        },
                    ),
                ),
            ),
            _ => abort(s),
        },
        _ => abort(s),
    }
}

/// What a directory creation in state `s` does on `e`: its next state and step.
pub open spec fn advance_create_spec(s: ExecutionV, e: Event) -> (ExecutionV, StepV) {
    let dir = item_of(s.op, s.index as int);
    match s.phase {
        PhaseV::Creating { step } => match e {
            Event::Done => create_next(
                s,
                step,
                verbose_line(s, creating_line(stripped(dir, s.container))),
            ),
            Event::Failed(IoFailure::AlreadyExists) => create_next(s, step, None),
            Event::Failed(IoFailure::PermissionDenied) => skip(
                s,
                dir_denied_line(stripped(dir, s.container)),
            ),
            _ => abort(s),
        },
        _ => abort(s),
    }
}

/// What an operation in state `s` does on `e`: its next state and step.
pub open spec fn advance_spec(s: ExecutionV, e: Event) -> (ExecutionV, StepV) {
    if s.phase is Finished {
        go(s, PhaseV::Finished, None, ActionV::Finish(s.ok))
    } else if is_copy(s.op) {
        advance_copy_spec(s, e)
    } else {
        advance_create_spec(s, e)
    }
}

/// The state is one that `start` and `advance` can reach.
pub open spec fn wf(s: ExecutionV) -> bool {
    match s.phase {
        PhaseV::Finished | PhaseV::Aborted => true,
        PhaseV::Creating { step } => !is_copy(s.op) && s.index < item_count(s.op) && step
            < s.chain.len(),
        PhaseV::EnsuringDirectory { step } => is_copy(s.op) && s.index < item_count(s.op) && step
            < s.chain.len(),
        PhaseV::Probing => is_copy(s.op) && s.index < item_count(s.op) && backup_of(s.op) is Existing,
        PhaseV::BackingUp { index, .. } => is_copy(s.op) && s.index < item_count(s.op) && (
        index matches Some(n) ==> n <= u64::MAX),
        _ => is_copy(s.op) && s.index < item_count(s.op),
    }
}

// ---------------------------------------------------------------------------------------------
// The executable side.

/// `pre`, then `x`, then `post`.
fn enclose(pre: &str, x: &str, post: &str) -> (r: String)
    ensures
        r@ == pre@ + x@ + post@,
{
    let a = cat(pre, x);
    cat(a.as_str(), post)
}


fn copied_message(from: &str, to: &str, backup: &Option<String>) -> (r: String)
    ensures
        r@ == copied_line(from@, to@, opt_view(*backup)),
{
    let a = enclose("'", from, "' -> '");
    let b = enclose(a.as_str(), to, "'");
    match backup {
        Some(path) => {
            let tail = enclose(" (backup: '", path.as_str(), "')");
            let r = cat(b.as_str(), tail.as_str());
            assert(r@ =~= copied_line(from@, to@, opt_view(*backup)));
            r
        },
        None => {
            assert(b@ =~= copied_line(from@, to@, opt_view(*backup)));
            b
        },
    }
}

fn copy_backup(b: &Backup) -> (r: Backup)
    ensures
        r@ == b@,
{
    match b {
        Backup::Off => Backup::Off,
        Backup::Numbered => Backup::Numbered,
        Backup::Simple(x) => Backup::Simple(clone_string(x)),
        Backup::Existing(x) => Backup::Existing(clone_string(x)),
    }
}

impl Execution {
    /// Starts `operation`, with its paths read relative to `container`.
    pub fn new(operation: Operation, container: String) -> (r: (Execution, Step))
        ensures
            (r.0@, r.1@) == start_spec(operation@, container@),
            wf(r.0@),
    {
        let mut e = Execution {
            operation,
            container,
            index: 0,
            ok: true,
            target: String::new(),
            chain: Vec::new(),
            phase: Phase::Finished,
        };
        assert(strings_view(e.chain) =~= Seq::<Seq<char>>::empty());
        let step = e.begin_at(0, true, None);
        (e, step)
    }


    fn item_count(&self) -> (r: usize)
        ensures
            r == item_count(self@.op),
    {
        match &self.operation {
            Operation::CopyFiles { files, .. } => files.len(),
            Operation::CopyFile { .. } => 1,
            Operation::CreateDirectories { directories, .. } => directories.len(),
        }
    }

    fn is_single(&self) -> (r: bool)
        ensures
            r == self@.op is CopyFile,
    {
        match &self.operation {
            Operation::CopyFile { .. } => true,
            _ => false,
        }
    }

    fn is_copy(&self) -> (r: bool)
        ensures
            r == is_copy(self@.op),
    {
        match &self.operation {
            Operation::CreateDirectories { .. } => false,
            _ => true,
        }
    }

    fn item(&self, i: usize) -> (r: String)
        requires
            i < item_count(self@.op),
        ensures
            r@ == item_of(self@.op, i as int),
    {
        match &self.operation {
            Operation::CopyFiles { files, .. } => clone_string(&files[i]),
            Operation::CopyFile { from, .. } => clone_string(from),
            Operation::CreateDirectories { directories, .. } => clone_string(&directories[i]),
        }
    }

    fn folder(&self) -> (r: String)
        ensures
            r@ == folder_of(self@.op, self@.container),
    {
        match &self.operation {
            Operation::CopyFiles { destination, .. } => join(
                self.container.as_str(),
                destination.as_str(),
            ),
            Operation::CopyFile { to, .. } => {
                let p = parent(to.as_str());
                join(self.container.as_str(), p.as_str())
            },
            _ => String::new(),
        }
    }

    fn target(&self, i: usize) -> (r: Option<String>)
        requires
            i < item_count(self@.op),
        ensures
            opt_view(r) == target_of(self@.op, self@.container, i as int),
    {
        match &self.operation {
            Operation::CopyFiles { files, .. } => match file_name(files[i].as_str()) {
                Some(name) => {
                    let folder = self.folder();
                    Some(join(folder.as_str(), name.as_str()))
                },
                None => None,
            },
            Operation::CopyFile { to, .. } => Some(join(self.container.as_str(), to.as_str())),
            _ => None,
        }
    }

    fn backup(&self) -> (r: Backup)
        ensures
            r@ == backup_of(self@.op),
    {
        match &self.operation {
            Operation::CopyFiles { backup, .. } => copy_backup(backup),
            Operation::CopyFile { backup, .. } => copy_backup(backup),
            _ => Backup::Off,
        }
    }

    fn flags(&self) -> (r: (bool, bool, bool))
        ensures
            r.0 == preserves(self@.op),
            r.1 == makes_all(self@.op),
            r.2 == is_verbose(self@.op),
    {
        match &self.operation {
            Operation::CopyFiles { preserve_timestamps, make_all_directories, verbose, .. } => (
                *preserve_timestamps,
                *make_all_directories,
                *verbose,
            ),
            Operation::CopyFile { preserve_timestamps, make_all_directories, verbose, .. } => (
                *preserve_timestamps,
                *make_all_directories,
                *verbose,
            ),
            Operation::CreateDirectories { verbose, .. } => (false, false, *verbose),
        }
    }

    fn begin_at(&mut self, i: usize, ok: bool, line: Option<String>) -> (r: Step)
        requires
            i <= item_count(old(self)@.op),
        ensures
            (final(self)@, r@) == begin_at(old(self)@, i as nat, ok, opt_view(line)),
    {
        let n = self.item_count();
        if i < n {
            let item = self.item(i);
            let path = join(self.container.as_str(), item.as_str());
            if self.is_copy() {
                self.chain = Vec::new();
                self.index = i;
                self.ok = ok;
                self.phase = Phase::Inspect;
                assert(strings_view(self.chain) =~= Seq::<Seq<char>>::empty());
                return Step { line, action: Action::CheckDirectory { path } };
            }
            proof {
                lemma_chain(path@);
            }
            self.chain = directory_chain(path.as_str());
            let (action, phase) = (
                Action::CreateDirectory { path: clone_string(&self.chain[0]) },
                Phase::Creating { step: 0 },
            );
            self.index = i;
            self.ok = ok;
            self.phase = phase;
            Step { line, action }
        } else {
            self.ok = ok;
            self.phase = Phase::Finished;
            Step { line, action: Action::Finish { success: ok } }
        }
    }

    fn go(&mut self, phase: Phase, line: Option<String>, action: Action) -> (r: Step)
        ensures
            final(self)@ == (ExecutionV { phase: phase@, ..old(self)@ }),
            r@ == (StepV { line: opt_view(line), action: action@ }),
    {
        self.phase = phase;
        Step { line, action }
    }

    fn abort(&mut self) -> (r: Step)
        ensures
            (final(self)@, r@) == abort(old(self)@),
    {
        self.phase = Phase::Aborted;
        Step { line: None, action: Action::Abort }
    }

    fn next_item(&mut self, ok: bool, line: Option<String>) -> (r: Step)
        requires
            old(self)@.index < item_count(old(self)@.op),
        ensures
            (final(self)@, r@) == begin_at(old(self)@, old(self)@.index + 1, ok, opt_view(line)),
    {
        let count = self.item_count();
        let i = if self.index < count {
            self.index + 1
        } else {
            count
        };
        self.begin_at(i, ok, line)
    }

    fn verbose_line(&self, line: String) -> (r: Option<String>)
        ensures
            opt_view(r) == verbose_line(self@, line@),
    {
        let (_, _, verbose) = self.flags();
        if verbose {
            Some(line)
        } else {
            None
        }
    }

    fn backup_start(&mut self, backup: &Backup) -> (r: Step)
        ensures
            (final(self)@, r@) == backup_start(old(self)@, backup@),
    {
        match backup {
            Backup::Off => {
                let shown = strip_prefix(self.target.as_str(), self.container.as_str());
                let line = self.verbose_line(enclose("removed '", shown.as_str(), "'"));
                let (restore_times, _, _) = self.flags();
                let removed = clone_string(&self.target);
                self.go(
                    Phase::Copying { outcome: Some(BackupOutcome::Removed(removed)) },
                    line,
                    Action::CopyContent { restore_times },
                )
            },
            Backup::Numbered => {
                let path = numbered_backup(self.target.as_str(), 1);
                let again = clone_string(&path);
                self.go(
                    Phase::BackingUp { path, index: Some(1) },
                    None,
                    Action::CreateBackup { path: again },
                )
            },
            Backup::Simple(x) => {
                let path = add_suffix(self.target.as_str(), x.as_str());
                let again = clone_string(&path);
                self.go(Phase::BackingUp { path, index: None }, None, Action::CreateBackup { path: again })
            },
            Backup::Existing(_) => {
                let path = numbered_backup(self.target.as_str(), 1);
                self.go(Phase::Probing, None, Action::ProbeBackup { path })
            },
        }
    }

    /// Takes what happened when the last action was performed, and decides the next step.
    pub fn advance(&mut self, event: Event) -> (r: Step)
        requires
            wf(old(self)@),
        ensures
            (final(self)@, r@) == advance_spec(old(self)@, event),
            wf(final(self)@),
    {
        let mut phase = Phase::Aborted;
        std::mem::swap(&mut self.phase, &mut phase);
        match phase {
            Phase::Finished => {
                let ok = self.ok;
                self.go(Phase::Finished, None, Action::Finish { success: ok })
            },
            Phase::Aborted => self.abort(),
            Phase::Creating { step } => {
                if self.is_copy() {
                    self.abort()
                } else {
                    self.advance_create(step, event)
                }
            },
            _ => {
                if self.is_copy() {
                    self.advance_copy(phase, event)
                } else {
                    self.abort()
                }
            },
        }
    }

    fn create_next(&mut self, step: usize, line: Option<String>) -> (r: Step)
        requires
            !is_copy(old(self)@.op),
            old(self)@.index < item_count(old(self)@.op),
            step < old(self)@.chain.len(),
        ensures
            (final(self)@, r@) == create_next(old(self)@, step as nat, opt_view(line)),
    {
        let n = self.chain.len();
        assert(strings_view(self.chain).len() == n);
        if step + 1 < n {
            let path = clone_string(&self.chain[step + 1]);
            self.go(Phase::Creating { step: step + 1 }, None, Action::CreateDirectory { path })
        } else {
            let ok = self.ok;
            self.next_item(ok, line)
        }
    }

    fn advance_create(&mut self, step: usize, event: Event) -> (r: Step)
        requires
            !is_copy(old(self)@.op),
            old(self)@.index < item_count(old(self)@.op),
            step < old(self)@.chain.len(),
        ensures
            (final(self)@, r@) == advance_create_spec(
                ExecutionV { phase: PhaseV::Creating { step: step as nat }, ..old(self)@ },
                event,
            ),
    {
        let item = self.item(self.index);
        let dir = strip_prefix(item.as_str(), self.container.as_str());
        match event {
            Event::Done => {
                let line = self.verbose_line(
                    enclose("winstall: creating directory '", dir.as_str(), "'"),
                );
                self.create_next(step, line)
            },
            Event::Failed(IoFailure::AlreadyExists) => self.create_next(step, None),
            Event::Failed(IoFailure::PermissionDenied) => {
                let line = enclose(
                    "winstall: cannot create directory '",
                    dir.as_str(),
                    "': Permission denied",
                );
                self.next_item(false, Some(line))
            },
            _ => self.abort(),
        }
    }

    fn ensure_next(&mut self, step: usize, line: Option<String>) -> (r: Step)
        requires
            step < old(self)@.chain.len(),
        ensures
            (final(self)@, r@) == ensure_next(old(self)@, step as nat, opt_view(line)),
    {
        let n = self.chain.len();
        assert(strings_view(self.chain).len() == n);
        if step + 1 < n {
            let path = clone_string(&self.chain[step + 1]);
            self.go(
                Phase::EnsuringDirectory { step: step + 1 },
                None,
                Action::CreateDirectory { path },
            )
        } else {
            let path = clone_string(&self.target);
            self.go(Phase::OpeningDestination, line, Action::OpenDestination { path })
        }
    }

    fn advance_copy(&mut self, phase: Phase, event: Event) -> (r: Step)
        requires
            wf(ExecutionV { phase: phase@, ..old(self)@ }),
            is_copy(old(self)@.op),
            !(phase is Finished || phase is Aborted || phase is Creating),
            phase matches Phase::EnsuringDirectory { step } ==> step < old(self)@.chain.len(),
        ensures
            (final(self)@, r@) == advance_copy_spec(
                ExecutionV { phase: phase@, ..old(self)@ },
                event,
            ),
    {
        let file = self.item(self.index);
        let folder = self.folder();
        let (preserve, make_all, _) = self.flags();
        match phase {
            Phase::Inspect => match event {
                Event::Directory(true) => {
                    let shown = trim_separators(file.as_str());
                    let line = enclose("winstall: skipping directory '", shown.as_str(), "'");
                    self.next_item(false, Some(line))
                },
                Event::Directory(false) => match self.target(self.index) {
                    Some(target) => {
                        self.target = target;
                        let path = join(self.container.as_str(), file.as_str());
                        self.go(
                            Phase::OpeningSource,
                            None,
                            Action::OpenSource { path, snapshot_times: preserve },
                        )
                    },
                    None => self.abort(),
                },
                _ => self.abort(),
            },
            Phase::OpeningSource => match event {
                Event::Done => {
                    self.chain = if make_all {
                        proof {
                            lemma_chain(folder@);
                        }
                        directory_chain(folder.as_str())
                    } else {
                        let only = vec![clone_string(&folder)];
                        assert(strings_view(only) =~= seq![folder@]);
                        only
                    };
                    let path = clone_string(&self.chain[0]);
                    self.go(
                        Phase::EnsuringDirectory { step: 0 },
                        None,
                        Action::CreateDirectory { path },
                    )
                },
                Event::Failed(IoFailure::NotFound) => {
                    let shown = strip_prefix(file.as_str(), self.container.as_str());
                    let line = if self.is_single() {
                        enclose(
                            "winstall: cannot open file to read '",
                            shown.as_str(),
                            "': No such file or directory",
                        )
                    } else {
                        enclose(
                            "winstall: cannot stat '",
                            shown.as_str(),
                            "': No such file or directory",
                        )
                    };
                    self.next_item(false, Some(line))
                },
                Event::Failed(IoFailure::PermissionDenied) => {
                    let shown = strip_prefix(file.as_str(), self.container.as_str());
                    let line = if self.is_single() {
                        enclose(
                            "winstall: cannot open file to read '",
                            shown.as_str(),
                            "': Permission denied",
                        )
                    } else {
                        enclose(
                            "winstall: cannot open '",
                            shown.as_str(),
                            "' for reading: Permission denied",
                        )
                    };
                    self.next_item(false, Some(line))
                },
                _ => self.abort(),
            },
            Phase::EnsuringDirectory { step } => {
                let shown = strip_prefix(folder.as_str(), self.container.as_str());
                match event {
                    Event::Done => {
                        let line = self.verbose_line(
                            enclose("winstall: creating directory '", shown.as_str(), "'"),
                        );
                        self.ensure_next(step, line)
                    },
                    Event::Failed(IoFailure::AlreadyExists) => self.ensure_next(step, None),
                    Event::Failed(IoFailure::NotFound) => {
                        let line = if self.is_single() {
                            enclose(
                                "winstall: cannot create directory '",
                                shown.as_str(),
                                "': No such file or directory",
                            )
                        } else {
                            enclose(
                                "winstall: cannot create regular file '",
                                shown.as_str(),
                                "': No such file or directory",
                            )
                        };
                        self.next_item(false, Some(line))
                    },
                    Event::Failed(IoFailure::PermissionDenied) => {
                        let line = enclose(
                            "winstall: cannot create directory '",
                            shown.as_str(),
                            "': Permission denied",
                        );
                        self.next_item(false, Some(line))
                    },
                    _ => self.abort(),
                }
            },
            Phase::OpeningDestination => match event {
                Event::Opened { existed: false } => self.go(
                    Phase::Copying { outcome: None },
                    None,
                    Action::CopyContent { restore_times: preserve },
                ),
                Event::Opened { existed: true } => {
                    let backup = self.backup();
                    self.backup_start(&backup)
                },
                Event::Failed(IoFailure::PermissionDenied) => {
                    let shown = strip_prefix(self.target.as_str(), self.container.as_str());
                    let line = enclose("winstall: cannot stat '", shown.as_str(), "': Permission denied");
                    self.next_item(false, Some(line))
                },
                _ => self.abort(),
            },
            Phase::Probing => match event {
                Event::Exists(true) => self.backup_start(&Backup::Numbered),
                Event::Exists(false) => match self.backup() {
                    Backup::Existing(x) => self.backup_start(&Backup::Simple(x)),
                    _ => self.abort(),
                },
                _ => self.abort(),
            },
            Phase::BackingUp { path, index } => match (event, index) {
                (Event::Done, _) => self.go(
                    Phase::Copying { outcome: Some(BackupOutcome::BackedUp(path)) },
                    None,
                    Action::CopyContent { restore_times: preserve },
                ),
                (Event::Failed(IoFailure::AlreadyExists), Some(n)) => {
                    if n < u64::MAX {
                        let next = numbered_backup(self.target.as_str(), n + 1);
                        let again = clone_string(&next);
                        self.go(
                            Phase::BackingUp { path: next, index: Some(n + 1) },
                            None,
                            Action::CreateBackup { path: again },
                        )
                    } else {
                        self.abort()
                    }
                },
                _ => self.abort(),
            },
            Phase::Copying { outcome } => match event {
                Event::Done => {
                    let from = strip_prefix(file.as_str(), self.container.as_str());
                    let to = strip_prefix(self.target.as_str(), self.container.as_str());
                    let kept = match &outcome {
                        Some(BackupOutcome::BackedUp(b)) => Some(
                            strip_prefix(b.as_str(), self.container.as_str()),
                        ),
                        _ => None,
                    };
                    let line = self.verbose_line(copied_message(from.as_str(), to.as_str(), &kept));
                    let ok = self.ok;
                    self.next_item(ok, line)
                },
                _ => self.abort(),
            },
            _ => self.abort(),
        }
    }
}

} // verus!
