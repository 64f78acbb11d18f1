//! How an external program is launched, and what its outcome means.
//!
//! The caller spawns the process; this module builds the launch and classifies
//! what came back.
use vstd::prelude::*;
use crate::library::IoErrorKind;
use crate::text::{owned, views};

verus! {

/// Why running an external program failed.
#[derive(Debug, Clone)]
pub enum ProgramError {
    /// The program could not be found.
    ProgramNotFound(String),
    /// The wait for the program was interrupted, or a signal ended it.
    ProcessInterrupted,
    /// The program may not be run.
    NoPermission,
    /// The program ran and exited with this status.
    NonZeroExitCode(i32),
    /// Anything else, with the system's message.
    UnexpectedError(String),
}

/// One launch of an external program.
#[derive(Debug, Clone)]
pub struct LaunchOptions {
    /// The program to run.
    pub program: String,
    /// Its arguments.
    pub args: Vec<String>,
    /// The working directory; the caller's own when `None`.
    pub cwd: Option<String>,
    /// Start the program and do not wait for it.
    pub fork_mode: bool,
    /// Discard the program's standard streams.
    pub quiet: bool,
    /// Environment variables set on top of the inherited ones.
    pub env: Option<Vec<(String, String)>>,
}

/// The error for a program that could not be started: `kind` is the kind of
/// the system's error and `message` its text.
pub fn spawn_error(program: &str, kind: IoErrorKind, message: String) -> (r: ProgramError)
    ensures
        kind == IoErrorKind::NotFound ==> r is ProgramNotFound && r->ProgramNotFound_0@ == program@,
        kind == IoErrorKind::PermissionDenied ==> r is NoPermission,
        kind == IoErrorKind::Interrupted ==> r is ProcessInterrupted,
        (kind == IoErrorKind::AlreadyExists || kind == IoErrorKind::Other) ==> r is UnexpectedError
            && r->UnexpectedError_0@ == message@,
{
    match kind {
        IoErrorKind::NotFound => ProgramError::ProgramNotFound(owned(program)),
        IoErrorKind::PermissionDenied => ProgramError::NoPermission,
        IoErrorKind::Interrupted => ProgramError::ProcessInterrupted,
        _ => ProgramError::UnexpectedError(message),
    }
}

/// The outcome of a program that was waited for: `success` tells whether it
/// exited with status zero, `code` is its exit status if it has one.
pub fn exit_result(success: bool, code: Option<i32>) -> (r: Result<(), ProgramError>)
    ensures
        success ==> r is Ok,
        !success && code is Some ==> r is Err && r->Err_0 is NonZeroExitCode
            && r->Err_0->NonZeroExitCode_0 == code->Some_0,
        !success && code is None ==> r is Err && r->Err_0 is ProcessInterrupted,
{
    if success {
        Ok(())
    } else {
        match code {
            Some(c) => Err(ProgramError::NonZeroExitCode(c)),
            None => Err(ProgramError::ProcessInterrupted),
        }
    }
}

/// Copies of `v`'s strings.
pub fn copy_strings(v: &Vec<String>) -> (r: Vec<String>)
    ensures
        views(r@) == views(v@),
{
    let mut r: Vec<String> = Vec::new();
    let mut i: usize = 0;
    while i < v.len()
        invariant
            i <= v@.len(),
            r@.len() == i,
            forall|j: int| 0 <= j < i ==> (#[trigger] r@[j])@ == v@[j]@,
        decreases v@.len() - i,
    {
        r.push(v[i].clone());
        i = i + 1;
    }
    assert(views(r@) =~= views(v@));
    r
}

/// The launch that opens `file` in `editor`: the editor's own arguments, then
/// the file; run in the foreground. `None` where no editor is set.
pub fn edit_file_options(editor: &str, editor_args: &Vec<String>, file: &str) -> (r: Option<LaunchOptions>)
    ensures
        editor@.len() == 0 <==> r is None,
        r is Some ==> {
            let o = r->Some_0;
            &&& o.program@ == editor@
            &&& views(o.args@) == views(editor_args@).push(file@)
            &&& o.cwd is None
            &&& !o.fork_mode
            &&& !o.quiet
            &&& o.env is None
        },
{
    if editor.unicode_len() == 0 {
        return None;
    }
    let mut args = copy_strings(editor_args);
    args.push(owned(file));
    assert(views(args@) =~= views(editor_args@).push(file@));
    Some(LaunchOptions { program: owned(editor), args, cwd: None, fork_mode: false, quiet: false, env: None })
}

} // verus!
