//! The settings that the command line and the environment provide.

use vstd::prelude::*;
use crate::text::{
    attached_of, attached_piece, clone_string, head_of, opt_view, split_at_equals, str_eq,
};

verus! {

/// Settings taken from the environment: `VERSION_CONTROL` and `SIMPLE_BACKUP_SUFFIX`.
pub struct External {
    pub version_control: Option<String>,
    pub simple_backup_suffix: Option<String>,
}

/// Whether a backup was asked for with a named method.
#[derive(Debug, PartialEq)]
pub enum BackupKind {
    Unspecified,
    Specified(String),
}

/// What the command line asks for.
#[derive(Debug, PartialEq)]
pub struct Provided {
    pub backup: Option<BackupKind>,
    pub suffix: Option<String>,
    pub verbose: bool,
    pub preserve_timestamps: bool,
    pub make_all_directories: bool,
    pub no_target_directory: bool,
    pub target_directory: Option<String>,
    pub directory_arguments: bool,
    pub arguments: Vec<String>,
}

/// Why a command line was refused.
#[derive(Debug, PartialEq)]
pub enum ArgumentError {
    /// The option, as written, needs a value and none followed.
    ArgumentRequired(String),
}

pub struct ProvidedV {
    pub backup: Option<Option<Seq<char>>>,
    pub suffix: Option<Seq<char>>,
    pub verbose: bool,
    pub preserve_timestamps: bool,
    pub make_all_directories: bool,
    pub no_target_directory: bool,
    pub target_directory: Option<Seq<char>>,
    pub directory_arguments: bool,
    pub arguments: Seq<Seq<char>>,
}


impl View for Provided {
    type V = ProvidedV;

    open spec fn view(&self) -> ProvidedV {
        ProvidedV {
            backup: match self.backup {
                Some(BackupKind::Unspecified) => Some(None),
                Some(BackupKind::Specified(s)) => Some(Some(s@)),
                None => None,
            },
            suffix: opt_view(self.suffix),
            verbose: self.verbose,
            preserve_timestamps: self.preserve_timestamps,
            make_all_directories: self.make_all_directories,
            no_target_directory: self.no_target_directory,
            target_directory: opt_view(self.target_directory),
            directory_arguments: self.directory_arguments,
            arguments: self.arguments@.map_values(|s: String| s@),
        }
    }
}

/// Nothing asked for yet.
pub open spec fn nothing_provided() -> ProvidedV {
    ProvidedV {
        backup: None,
        suffix: None,
        verbose: false,
        preserve_timestamps: false,
        make_all_directories: false,
        no_target_directory: false,
        target_directory: None,
        directory_arguments: false,
        arguments: Seq::empty(),
    }
}

/// Whether `name` is the short or the long form of an option.
pub open spec fn names(name: Seq<char>, short: Seq<char>, long: Seq<char>) -> bool {
    name == short || name == long
}

/// Reads `args` from position `i` on, onto what `acc` holds already.
///
/// An argument is read up to its first `'='`. A recognised option sets its field. `--suffix`
/// and `--target-directory` (`-S`, `-t`) take the piece after the `'='` (up to the next one) or
/// else the following argument; `--backup` takes only a piece after the `'='`, and `-b` takes
/// none. Anything else is an operand, kept up to its first `'='`.
pub open spec fn parse_from(args: Seq<Seq<char>>, i: nat, acc: ProvidedV) -> Result<
    ProvidedV,
    Seq<char>,
>
    decreases args.len() - i,
{
    if i >= args.len() {
        Ok(acc)
    } else {
        let arg = args[i as int];
        let name = head_of(arg);
        let value = match attached_of(arg) {
            Some(v) => Some(v),
            None => if i + 1 < args.len() {
                Some(args[i as int + 1])
            } else {
                None
            },
        };
        let after = if attached_of(arg) is None && i + 1 < args.len() {
            i + 2
        } else {
            i + 1
        };
        if names(name, "-v"@, "--verbose"@) {
            parse_from(args, i + 1, ProvidedV { verbose: true, ..acc })
        } else if names(name, "-p"@, "--preserve-timestamps"@) {
            parse_from(args, i + 1, ProvidedV { preserve_timestamps: true, ..acc })
        } else if names(name, "-T"@, "--no-target-directory"@) {
            parse_from(args, i + 1, ProvidedV { no_target_directory: true, ..acc })
        } else if name == "-D"@ {
            parse_from(args, i + 1, ProvidedV { make_all_directories: true, ..acc })
        } else if names(name, "-d"@, "--directory"@) {
            parse_from(args, i + 1, ProvidedV { directory_arguments: true, ..acc })
        } else if name == "-b"@ {
            parse_from(args, i + 1, ProvidedV { backup: Some(None), ..acc })
        } else if name == "--backup"@ {
            parse_from(args, i + 1, ProvidedV { backup: Some(attached_of(arg)), ..acc })
        } else if names(name, "-S"@, "--suffix"@) {
            match value {
                Some(v) => parse_from(args, after, ProvidedV { suffix: Some(v), ..acc }),
                None => Err(arg),
            }
        } else if names(name, "-t"@, "--target-directory"@) {
            match value {
                Some(v) => parse_from(args, after, ProvidedV { target_directory: Some(v), ..acc }),
                None => Err(arg),
            }
        } else {
            parse_from(args, i + 1, ProvidedV { arguments: acc.arguments.push(name), ..acc })
        }
    }
}

/// What a whole command line asks for, or the option that lacks its value.
pub open spec fn parse(args: Seq<Seq<char>>) -> Result<ProvidedV, Seq<char>> {
    parse_from(args, 0, nothing_provided())
}

fn names_exec(name: &str, short: &str, long: &str) -> (r: bool)
    ensures
        r == names(name@, short@, long@),
{
    str_eq(name, short) || str_eq(name, long)
}


impl Provided {
    /// Reads the command line `args` (the program name left out).
    pub fn from_arguments(args: Vec<String>) -> (r: Result<Self, ArgumentError>)
        ensures
            match (r, parse(args@.map_values(|s: String| s@))) {
                (Ok(p), Ok(m)) => p@ == m,
                (Err(ArgumentError::ArgumentRequired(a)), Err(m)) => a@ == m,
                _ => false,
            },
    {
        let ghost view = args@.map_values(|s: String| s@);
        let mut provided = Provided {
            backup: None,
            suffix: None,
            verbose: false,
            preserve_timestamps: false,
            make_all_directories: false,
            no_target_directory: false,
            target_directory: None,
            directory_arguments: false,
            arguments: Vec::new(),
        };
        assert(provided@.arguments =~= Seq::<Seq<char>>::empty());
        assert(provided@ == nothing_provided());
        let n = args.len();
        let mut i: usize = 0;
        while i < n
            invariant
                n == args@.len(),
                view == args@.map_values(|s: String| s@),
                i <= n,
                parse_from(view, i as nat, provided@) == parse(view),
            decreases n - i,
        {
            let arg = &args[i];
            assert(arg@ == view[i as int]);
            let (name, _) = split_at_equals(arg.as_str());
            let attached = attached_piece(arg.as_str());
            let has_attached = attached.is_some();
            let value = match attached {
                Some(v) => Some(v),
                None => if i + 1 < n {
                    Some(clone_string(&args[i + 1]))
                } else {
                    None
                },
            };
            let after = if !has_attached && i + 1 < n {
                i + 2
            } else {
                i + 1
            };
            let ghost before = provided@;
            if names_exec(name.as_str(), "-v", "--verbose") {
                provided.verbose = true;
                i = i + 1;
            } else if names_exec(name.as_str(), "-p", "--preserve-timestamps") {
                provided.preserve_timestamps = true;
                i = i + 1;
            } else if names_exec(name.as_str(), "-T", "--no-target-directory") {
                provided.no_target_directory = true;
                i = i + 1;
            } else if str_eq(name.as_str(), "-D") {
                provided.make_all_directories = true;
                i = i + 1;
            } else if names_exec(name.as_str(), "-d", "--directory") {
                provided.directory_arguments = true;
                i = i + 1;
            } else if str_eq(name.as_str(), "-b") {
                provided.backup = Some(BackupKind::Unspecified);
                i = i + 1;
            } else if str_eq(name.as_str(), "--backup") {
                let named = attached_piece(arg.as_str());
                provided.backup = match named {
                    Some(v) => Some(BackupKind::Specified(v)),
                    None => Some(BackupKind::Unspecified),
                };
                i = i + 1;
            } else if names_exec(name.as_str(), "-S", "--suffix") {
                match value {
                    Some(v) => {
                        provided.suffix = Some(v);
                        i = after;
                    },
                    None => {
                        return Err(ArgumentError::ArgumentRequired(clone_string(arg)));
                    },
                }
            } else if names_exec(name.as_str(), "-t", "--target-directory") {
                match value {
                    Some(v) => {
                        provided.target_directory = Some(v);
                        i = after;
                    },
                    None => {
                        return Err(ArgumentError::ArgumentRequired(clone_string(arg)));
                    },
                }
            } else {
                provided.arguments.push(name);
                assert(provided@.arguments =~= before.arguments.push(head_of(view[i as int])));
                i = i + 1;
            }
        }
        Ok(provided)
    }
}

} // verus!
