//! Resolving a run: which endpoint input comes from, which endpoint output
//! goes to, and which formats to decode and encode with.
//!
//! The command line exposes two positional path slots. When standard input
//! is a pipe, the first slot is repurposed to name the output file; the
//! resolver keeps that convention in one place, so the rest of the pipeline
//! only sees the resolved plan.

use vstd::prelude::*;
use crate::errors::ConvError;
use crate::formats::{ext_format, format_from_ext, Format};
use crate::paths::{extension_of, spec_extension};

verus! {

/// Where the input text comes from.
#[derive(Clone, Copy, Debug, PartialEq, Eq, Structural)]
pub enum InputPlan {
    /// Read the file named by the first positional argument.
    FirstArg,
    /// Read everything from the standard-input pipe.
    Stdin,
}

/// Where the encoded output goes.
#[derive(Clone, Copy, Debug, PartialEq, Eq, Structural)]
pub enum OutputPlan {
    /// Write the file named by the second positional argument.
    SecondArg,
    /// Write the file named by the first positional argument, which is
    /// repurposed as the output path when input comes from the pipe.
    FirstArg,
    /// Write to the standard-output pipe.
    Stdout,
}

/// A fully resolved run: endpoints and formats.
#[derive(Clone, Copy, Debug, PartialEq, Eq, Structural)]
pub struct IoPlan {
    pub input: InputPlan,
    pub output: OutputPlan,
    pub from: Format,
    pub to: Format,
}

/// The format resolution rule: an explicit format always wins; otherwise a
/// recognized file extension decides; otherwise the format is unsupported.
pub open spec fn spec_resolve_format(explicit: Option<Format>, ext: Option<Seq<char>>) -> Result<
    Format,
    ConvError,
> {
    match explicit {
        Some(f) => Ok(f),
        None => match ext {
            Some(e) => match ext_format(e) {
                Some(f) => Ok(f),
                None => Err(ConvError::UnsupportedFormat),
            },
            None => Err(ConvError::UnsupportedFormat),
        },
    }
}

/// Format resolution against an optional path: the extension of the path,
/// when one is present, stands in for the extension argument.
pub open spec fn spec_resolve_format_for(explicit: Option<Format>, path: Option<
    Seq<char>,
>) -> Result<Format, ConvError> {
    spec_resolve_format(
        explicit,
        match path {
            Some(p) => spec_extension(p),
            None => None,
        },
    )
}

/// The view of an optional character slice.
pub open spec fn view_opt(o: Option<&[char]>) -> Option<Seq<char>> {
    match o {
        Some(s) => Some(s@),
        None => None,
    }
}

/// The whole decision table, as a function of the terminal state of the two
/// standard streams, the two positional arguments, and the explicit format
/// flags.
pub open spec fn spec_resolve_plan(
    stdin_tty: bool,
    stdout_tty: bool,
    source: Option<Seq<char>>,
    target: Option<Seq<char>>,
    from: Option<Format>,
    to: Option<Format>,
) -> Result<IoPlan, ConvError> {
    if stdin_tty {
        // Input must come from a named file.
        match source {
            None => Err(ConvError::MissingArguments),
            Some(src) => match spec_resolve_format_for(from, Some(src)) {
                Err(e) => Err(e),
                Ok(ff) => if stdout_tty {
                    match target {
                        None => Err(ConvError::MissingArguments),
                        Some(tgt) => match spec_resolve_format_for(to, Some(tgt)) {
                            Err(e) => Err(e),
                            Ok(tf) => Ok(
                                IoPlan {
                                    input: InputPlan::FirstArg,
                                    output: OutputPlan::SecondArg,
                                    from: ff,
                                    to: tf,
                                },
                            ),
                        },
                    }
                } else {
                    // Output goes to the pipe; the second slot, when present,
                    // still supplies the target format hint.
                    match spec_resolve_format_for(to, target) {
                        Err(e) => Err(e),
                        Ok(tf) => Ok(
                            IoPlan {
                                input: InputPlan::FirstArg,
                                output: OutputPlan::Stdout,
                                from: ff,
                                to: tf,
                            },
                        ),
                    }
                },
            },
        }
    } else {
        // Input comes from the pipe, so nothing names its format but the flag.
        match from {
            None => Err(ConvError::MissingSourceFormat),
            Some(ff) => if stdout_tty {
                // The first slot names the output file here.
                match source {
                    None => Err(ConvError::MissingArguments),
                    Some(outp) => match spec_resolve_format_for(to, Some(outp)) {
                        Err(e) => Err(e),
                        Ok(tf) => Ok(
                            IoPlan {
                                input: InputPlan::Stdin,
                                output: OutputPlan::FirstArg,
                                from: ff,
                                to: tf,
                            },
                        ),
                    },
                }
            } else {
                match spec_resolve_format_for(to, None) {
                    Err(e) => Err(e),
                    Ok(tf) => Ok(
                        IoPlan { input: InputPlan::Stdin, output: OutputPlan::Stdout, from: ff, to: tf },
                    ),
                }
            },
        }
    }
}

/// Resolves a format from an explicit flag and an optional extension.
pub fn resolve_format(explicit: Option<Format>, ext: Option<&[char]>) -> (r: Result<
    Format,
    ConvError,
>)
    ensures
        r == spec_resolve_format(explicit, view_opt(ext)),
{
    match explicit {
        Some(f) => Ok(f),
        None => match ext {
            Some(e) => match format_from_ext(e) {
                Some(f) => Ok(f),
                None => Err(ConvError::UnsupportedFormat),
            },
            None => Err(ConvError::UnsupportedFormat),
        },
    }
}

/// Resolves a format from an explicit flag and an optional path, reading the
/// path's extension.
pub fn resolve_format_for(explicit: Option<Format>, path: Option<&[char]>) -> (r: Result<
    Format,
    ConvError,
>)
    ensures
        r == spec_resolve_format_for(explicit, view_opt(path)),
{
    match path {
        Some(p) => {
            let ext = extension_of(p);
            match ext {
                Some(e) => resolve_format(explicit, Some(e.as_slice())),
                None => resolve_format(explicit, None),
            }
        },
        None => resolve_format(explicit, None),
    }
}

/// Resolves the whole run. `stdin_tty` and `stdout_tty` say whether the
/// standard streams are attached to a terminal; `source` and `target` are
/// the positional arguments; `from` and `to` the explicit format flags.
pub fn resolve_plan(
    stdin_tty: bool,
    stdout_tty: bool,
    source: Option<&[char]>,
    target: Option<&[char]>,
    from: Option<Format>,
    to: Option<Format>,
) -> (r: Result<IoPlan, ConvError>)
    ensures
        r == spec_resolve_plan(stdin_tty, stdout_tty, view_opt(source), view_opt(target), from, to),
{
    if stdin_tty {
        match source {
            None => Err(ConvError::MissingArguments),
            Some(src) => match resolve_format_for(from, Some(src)) {
                Err(e) => Err(e),
                Ok(ff) => if stdout_tty {
                    match target {
                        None => Err(ConvError::MissingArguments),
                        Some(tgt) => match resolve_format_for(to, Some(tgt)) {
                            Err(e) => Err(e),
                            Ok(tf) => Ok(
                                IoPlan {
                                    input: InputPlan::FirstArg,
                                    output: OutputPlan::SecondArg,
                                    from: ff,
                                    to: tf,
                                },
                            ),
                        },
                    }
                } else {
                    match resolve_format_for(to, target) {
                        Err(e) => Err(e),
                        Ok(tf) => Ok(
                            IoPlan {
                                input: InputPlan::FirstArg,
                                output: OutputPlan::Stdout,
                                from: ff,
                                to: tf,
                            },
                        ),
                    }
                },
            },
        }
    } else {
        match from {
            None => Err(ConvError::MissingSourceFormat),
            Some(ff) => if stdout_tty {
                match source {
                    None => Err(ConvError::MissingArguments),
                    Some(outp) => match resolve_format_for(to, Some(outp)) {
                        Err(e) => Err(e),
                        Ok(tf) => Ok(
                            IoPlan {
                                input: InputPlan::Stdin,
                                output: OutputPlan::FirstArg,
                                from: ff,
                                to: tf,
                            },
                        ),
                    },
                }
            } else {
                match resolve_format_for(to, None) {
                    Err(e) => Err(e),
                    Ok(tf) => Ok(
                        IoPlan { input: InputPlan::Stdin, output: OutputPlan::Stdout, from: ff, to: tf },
                    ),
                }
            },
        }
    }
}

/// A plan that reads the standard-input pipe always carries an explicitly
/// given source format: nothing else can name one for a pipe.
pub proof fn lemma_stdin_needs_explicit_from(
    stdin_tty: bool,
    stdout_tty: bool,
    source: Option<Seq<char>>,
    target: Option<Seq<char>>,
    from: Option<Format>,
    to: Option<Format>,
)
    ensures
        (match spec_resolve_plan(stdin_tty, stdout_tty, source, target, from, to) {
            Ok(p) => p.input == InputPlan::Stdin ==> from == Some(p.from),
            Err(_) => true,
        }),
{
}

/// A plan that writes to the standard-output pipe got its target format from
/// the explicit flag or from the extension of the second positional
/// argument, which is kept purely as a format hint in that mode.
pub proof fn lemma_stdout_format_source(
    stdin_tty: bool,
    stdout_tty: bool,
    source: Option<Seq<char>>,
    target: Option<Seq<char>>,
    from: Option<Format>,
    to: Option<Format>,
)
    ensures
        (match spec_resolve_plan(stdin_tty, stdout_tty, source, target, from, to) {
            Ok(p) => p.output == OutputPlan::Stdout ==> (to == Some(p.to) || (target matches Some(
                tgt,
            ) && spec_extension(tgt) matches Some(e) && ext_format(e) == Some(p.to))),
            Err(_) => true,
        }),
{
}

} // verus!
