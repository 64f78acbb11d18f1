//! The `profiles` commands.
use vstd::prelude::*;
use vstd::string::*;
use crate::commands::CommandError;
use crate::config::{GeneralOptions, Profile};
use crate::library::contains_text;
use crate::text::{owned, same_text, views};

verus! {

/// Editors that run on Windows through a `.cmd` launcher of the same name.
pub open spec fn has_cmd_launcher(e: Seq<char>) -> bool {
    ||| e == "code"@
    ||| e == "code-insiders"@
    ||| e == "codium"@
    ||| e == "code-oss"@
    ||| e == "cursor"@
    ||| e == "windsurf"@
}

/// Editors whose settings a new profile knows without asking: they open `.`
/// and run detached.
pub open spec fn is_known_editor(e: Seq<char>) -> bool {
    ||| has_cmd_launcher(e)
    ||| e == "zed"@
    ||| e == "code.cmd"@
    ||| e == "code-insiders.cmd"@
    ||| e == "codium.cmd"@
    ||| e == "code-oss.cmd"@
    ||| e == "windsurf.cmd"@
    ||| e == "cursor.cmd"@
}

/// The shell arguments of a new profile: PowerShell's, or `-c`.
pub open spec fn new_profile_shell_args(shell: Seq<char>) -> Seq<Seq<char>> {
    if shell == "pwsh"@ || shell == "pwsh.exe"@ || shell == "powershell"@ || shell == "powershell.exe"@ {
        seq!["-NoLogo"@, "-Command"@]
    } else {
        seq!["-c"@]
    }
}

fn launcher_editor(e: &str) -> (r: bool)
    ensures
        r == has_cmd_launcher(e@),
{
    same_text(e, "code") || same_text(e, "code-insiders") || same_text(e, "codium") || same_text(
        e,
        "code-oss",
    ) || same_text(e, "cursor") || same_text(e, "windsurf")
}

/// Whether a new profile knows the settings of `editor`; for any other editor
/// the user is asked whether to run it detached.
pub fn known_editor(editor: &str) -> (r: bool)
    ensures
        r == is_known_editor(editor@),
{
    launcher_editor(editor) || same_text(editor, "zed") || same_text(editor, "code.cmd") || same_text(
        editor,
        "code-insiders.cmd",
    ) || same_text(editor, "codium.cmd") || same_text(editor, "code-oss.cmd") || same_text(
        editor,
        "windsurf.cmd",
    ) || same_text(editor, "cursor.cmd")
}

/// The `profiles new` command: the profile named `profile_name`, from the
/// answers given. A known editor opens `.` detached, and on Windows (`windows`)
/// runs through its `.cmd` launcher; another editor runs detached as
/// `fork_answer` says. Fails where the name is taken or the editor or the shell
/// is empty.
pub fn handle_new(
    profile_names: &Vec<String>,
    profile_name: &str,
    editor: &str,
    fork_answer: bool,
    shell: &str,
    windows: bool,
) -> (r: Result<Profile, CommandError>)
    ensures
        views(profile_names@).contains(profile_name@) ==> r is Err && r->Err_0 is ProfileExists,
        !views(profile_names@).contains(profile_name@) && editor@.len() == 0 ==> r is Err && r->Err_0 is EmptyEditor,
        !views(profile_names@).contains(profile_name@) && editor@.len() > 0 && shell@.len() == 0 ==> r is Err
            && r->Err_0 is EmptyShell,
        !views(profile_names@).contains(profile_name@) && editor@.len() > 0 && shell@.len() > 0 ==> r is Ok && {
            let p = r->Ok_0;
            &&& p.editor@ == (if windows && has_cmd_launcher(editor@) {
                editor@ + ".cmd"@
            } else {
                editor@
            })
            &&& p.editor_fork_mode == (is_known_editor(editor@) || fork_answer)
            &&& views(p.editor_args@) == (if is_known_editor(editor@) {
                seq!["."@]
            } else {
                Seq::<Seq<char>>::empty()
            })
            &&& p.shell@ == shell@
            &&& views(p.shell_args@) == new_profile_shell_args(shell@)
        },
{
    if contains_text(profile_names, profile_name) {
        return Err(CommandError::ProfileExists);
    }
    if editor.unicode_len() == 0 {
        return Err(CommandError::EmptyEditor);
    }
    if shell.unicode_len() == 0 {
        return Err(CommandError::EmptyShell);
    }
    let known = known_editor(editor);
    let mut editor_name = owned(editor);
    if windows && launcher_editor(editor) {
        editor_name.append(".cmd");
    }
    let editor_args = if known {
        vec![owned(".")]
    } else {
        Vec::new()
    };
    assert(views(editor_args@) =~= (if known {
        seq!["."@]
    } else {
        Seq::<Seq<char>>::empty()
    }));
    let shell_args = if same_text(shell, "pwsh") || same_text(shell, "pwsh.exe") || same_text(
        shell,
        "powershell",
    ) || same_text(shell, "powershell.exe") {
        vec![owned("-NoLogo"), owned("-Command")]
    } else {
        vec![owned("-c")]
    };
    assert(views(shell_args@) =~= new_profile_shell_args(shell@));
    Ok(Profile {
        editor: editor_name,
        editor_args,
        editor_fork_mode: known || fork_answer,
        shell: owned(shell),
        shell_args,
    })
}

/// The `profiles set` command: makes `name` the current profile, where a
/// profile of that name exists; else fails and changes nothing.
pub fn handle_set(profile_names: &Vec<String>, options: &mut GeneralOptions, name: &str) -> (r: Result<(), CommandError>)
    ensures
        r is Ok <==> views(profile_names@).contains(name@),
        r is Err ==> r->Err_0 is ProfileNotFound && r->Err_0->ProfileNotFound_0@ == name@ && *final(options) == *old(options),
        r is Ok ==> final(options).current_profile@ == name@ && final(options).projects_directory == old(options).projects_directory
            && final(options).display_hidden == old(options).display_hidden,
{
    if !contains_text(profile_names, name) {
        return Err(CommandError::ProfileNotFound(owned(name)));
    }
    options.current_profile = owned(name);
    Ok(())
}

} // verus!
