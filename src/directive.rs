//! From what the command line and the environment provide to the operation to run.

use vstd::prelude::*;
use crate::cli::{BackupKind, External, Provided, ProvidedV};
use crate::text::{clone_string, opt_view, str_eq};
use crate::winstall::{strings_view, Backup, BackupV, Operation, OperationV};

verus! {

/// Why no operation can be run.
#[derive(Debug, PartialEq)]
pub enum DirectiveError {
    /// No operand was given.
    MissingFileOperand,
    /// A single operand was given, and no target directory: the operand as written.
    MissingDestination(String),
    /// `--target-directory` and `--no-target-directory` were both given.
    ConflictingTargets,
    /// The backup method named is none of the known ones: the name as written.
    InvalidBackupType(String),
}

pub enum DirectiveErrorV {
    MissingFileOperand,
    MissingDestination(Seq<char>),
    ConflictingTargets,
    InvalidBackupType(Seq<char>),
}

impl View for DirectiveError {
    type V = DirectiveErrorV;

    open spec fn view(&self) -> DirectiveErrorV {
        match self {
            DirectiveError::MissingFileOperand => DirectiveErrorV::MissingFileOperand,
            DirectiveError::MissingDestination(s) => DirectiveErrorV::MissingDestination(s@),
            DirectiveError::ConflictingTargets => DirectiveErrorV::ConflictingTargets,
            DirectiveError::InvalidBackupType(s) => DirectiveErrorV::InvalidBackupType(s@),
        }
    }
}

/// The policy that a backup method's name stands for, with `suffix` for simple backups:
/// `none`/`off`, `simple`/`never`, `existing`/`nil`, `numbered`/`t`.
pub open spec fn policy_named(mode: Seq<char>, suffix: Seq<char>) -> Option<BackupV> {
    if mode == "none"@ || mode == "off"@ {
        Some(BackupV::Off)
    } else if mode == "simple"@ || mode == "never"@ {
        Some(BackupV::Simple(suffix))
    } else if mode == "existing"@ || mode == "nil"@ {
        Some(BackupV::Existing(suffix))
    } else if mode == "numbered"@ || mode == "t"@ {
        Some(BackupV::Numbered)
    } else {
        None
    }
}

/// The suffix of simple backups: the one given, else the one from the environment, else `~`.
pub open spec fn suffix_chosen(p: ProvidedV, from_env: Option<Seq<char>>) -> Seq<char> {
    match p.suffix {
        Some(s) => s,
        None => match from_env {
            Some(s) => s,
            None => "~"@,
        },
    }
}

/// The backup method: the one named on the command line, else the one from the environment,
/// else `existing`.
pub open spec fn mode_chosen(p: ProvidedV, from_env: Option<Seq<char>>) -> Seq<char> {
    match p.backup {
        Some(Some(m)) => m,
        _ => match from_env {
            Some(m) => m,
            None => "existing"@,
        },
    }
}

/// The backup policy: none unless a backup was asked for.
pub open spec fn backup_chosen(
    p: ProvidedV,
    version_control: Option<Seq<char>>,
    suffix: Option<Seq<char>>,
) -> Result<BackupV, DirectiveErrorV> {
    if p.backup is None {
        Ok(BackupV::Off)
    } else {
        match policy_named(mode_chosen(p, version_control), suffix_chosen(p, suffix)) {
            Some(b) => Ok(b),
            None => Err(DirectiveErrorV::InvalidBackupType(mode_chosen(p, version_control))),
        }
    }
}


/// The operation that a command line asks for. `last_is_directory` tells whether the last
/// operand names an existing directory.
pub open spec fn directive_spec(
    p: ProvidedV,
    version_control: Option<Seq<char>>,
    suffix: Option<Seq<char>>,
    last_is_directory: bool,
) -> Result<OperationV, DirectiveErrorV> {
    let args = p.arguments;
    let n = args.len();
    if n == 0 {
        Err(DirectiveErrorV::MissingFileOperand)
    } else if p.no_target_directory && p.target_directory is Some {
        Err(DirectiveErrorV::ConflictingTargets)
    } else if p.directory_arguments {
        Ok(OperationV::CreateDirectories { directories: args, verbose: p.verbose })
    } else if p.target_directory is None && n < 2 {
        Err(DirectiveErrorV::MissingDestination(args[0]))
    } else {
        match backup_chosen(p, version_control, suffix) {
            Err(e) => Err(e),
            Ok(backup) => match p.target_directory {
                Some(t) => Ok(
                    OperationV::CopyFiles {
                        files: args,
                        destination: t,
                        backup,
                        preserve_timestamps: p.preserve_timestamps,
                        make_all_directories: p.make_all_directories,
                        verbose: p.verbose,
                    },
                ),
                None => if p.no_target_directory || (n == 2 && !last_is_directory) {
                    Ok(
                        OperationV::CopyFile {
                            from: args[0],
                            to: args[1],
                            backup,
                            preserve_timestamps: p.preserve_timestamps,
                            make_all_directories: p.make_all_directories,
                            verbose: p.verbose,
                        },
                    )
                } else {
                    Ok(
                        OperationV::CopyFiles {
                            files: args.subrange(0, n - 1),
                            destination: args[n - 1],
                            backup,
                            preserve_timestamps: p.preserve_timestamps,
                            make_all_directories: p.make_all_directories,
                            verbose: p.verbose,
                        },
                    )
                },
            },
        }
    }
}


fn clone_opt(o: &Option<String>) -> (r: Option<String>)
    ensures
        opt_view(r) == opt_view(*o),
{
    match o {
        Some(s) => Some(clone_string(s)),
        None => None,
    }
}

fn either(a: &str, x: &str, y: &str) -> (r: bool)
    ensures
        r == (a@ == x@ || a@ == y@),
{
    str_eq(a, x) || str_eq(a, y)
}

/// The policy that the backup method `mode` stands for, with `suffix` for simple backups.
pub fn backup_for(mode: &str, suffix: &str) -> (r: Option<Backup>)
    ensures
        match r {
            Some(b) => policy_named(mode@, suffix@) == Some(b@),
            None => policy_named(mode@, suffix@) is None,
        },
{
    if either(mode, "none", "off") {
        Some(Backup::Off)
    } else if either(mode, "simple", "never") {
        Some(Backup::Simple(suffix.to_owned()))
    } else if either(mode, "existing", "nil") {
        Some(Backup::Existing(suffix.to_owned()))
    } else if either(mode, "numbered", "t") {
        Some(Backup::Numbered)
    } else {
        None
    }
}

/// The backup policy that the command line and the environment ask for.
pub fn resolve_backup(provided: &Provided, external: &External) -> (r: Result<Backup, DirectiveError>)
    ensures
        match (r, backup_chosen(
            provided@,
            opt_view(external.version_control),
            opt_view(external.simple_backup_suffix),
        )) {
            (Ok(b), Ok(m)) => b@ == m,
            (Err(e), Err(m)) => e@ == m,
            _ => false,
        },
{
    let mode = match &provided.backup {
        None => {
            return Ok(Backup::Off);
        },
        Some(BackupKind::Specified(m)) => clone_string(m),
        Some(BackupKind::Unspecified) => match &external.version_control {
            Some(m) => clone_string(m),
            None => "existing".to_owned(),
        },
    };
    let suffix = match &provided.suffix {
        Some(s) => clone_string(s),
        None => match &external.simple_backup_suffix {
            Some(s) => clone_string(s),
            None => "~".to_owned(),
        },
    };
    match backup_for(mode.as_str(), suffix.as_str()) {
        Some(b) => Ok(b),
        None => Err(DirectiveError::InvalidBackupType(mode)),
    }
}

/// The operation that the command line asks for. `last_is_directory` tells whether the last
/// operand names an existing directory.
pub fn directive(provided: &Provided, external: &External, last_is_directory: bool) -> (r: Result<
    Operation,
    DirectiveError,
>)
    ensures
        match (r, directive_spec(
            provided@,
            opt_view(external.version_control),
            opt_view(external.simple_backup_suffix),
            last_is_directory,
        )) {
            (Ok(op), Ok(m)) => op@ == m,
            (Err(e), Err(m)) => e@ == m,
            _ => false,
        },
{
    let args = &provided.arguments;
    let n = args.len();
    let ghost view = args@.map_values(|s: String| s@);
    assert(view == provided@.arguments);
    if n == 0 {
        return Err(DirectiveError::MissingFileOperand);
    }
    if provided.no_target_directory && provided.target_directory.is_some() {
        return Err(DirectiveError::ConflictingTargets);
    }
    let mut all: Vec<String> = Vec::new();
    let mut i: usize = 0;
    while i < n
        invariant
            n == args@.len(),
            i <= n,
            all@.len() == i,
            forall|j: int| 0 <= j < i ==> all@[j]@ == args@[j]@,
        decreases n - i,
    {
        all.push(clone_string(&args[i]));
        i = i + 1;
    }
    assert(strings_view(all) =~= provided@.arguments);
    if provided.directory_arguments {
        return Ok(Operation::CreateDirectories { directories: all, verbose: provided.verbose });
    }
    if provided.target_directory.is_none() && n < 2 {
        return Err(DirectiveError::MissingDestination(clone_string(&args[0])));
    }
    let backup = match resolve_backup(provided, external) {
        Ok(b) => b,
        Err(e) => {
            return Err(e);
        },
    };
    match &provided.target_directory {
        Some(t) => Ok(
            Operation::CopyFiles {
                files: all,
                destination: clone_string(t),
                backup,
                preserve_timestamps: provided.preserve_timestamps,
                make_all_directories: provided.make_all_directories,
                verbose: provided.verbose,
            },
        ),
        None => {
            if provided.no_target_directory || (n == 2 && !last_is_directory) {
                Ok(
                    Operation::CopyFile {
                        from: clone_string(&args[0]),
                        to: clone_string(&args[1]),
                        backup,
                        preserve_timestamps: provided.preserve_timestamps,
                        make_all_directories: provided.make_all_directories,
                        verbose: provided.verbose,
                    },
                )
            } else {
                let destination = all.pop().unwrap();
                assert(strings_view(all) =~= provided@.arguments.subrange(0, n - 1));
                Ok(
                    Operation::CopyFiles {
                        files: all,
                        destination,
                        backup,
                        preserve_timestamps: provided.preserve_timestamps,
                        make_all_directories: provided.make_all_directories,
                        verbose: provided.verbose,
                    },
                )
            }
        },
    }
}

} // verus!
