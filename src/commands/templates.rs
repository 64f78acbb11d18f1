//! The `templates` commands.
use vstd::prelude::*;
use crate::commands::CommandError;
use crate::config::Profile;
use crate::program::{edit_file_options, LaunchOptions};
use crate::text::{has_prefix, lines, lines_of, owned, starts_with, views};

verus! {

/// The launch that opens the templates file at `path` in the profile's editor,
/// with the editor's arguments before the path.
pub fn handle_edit(profile: &Profile, path: &str) -> (r: Result<LaunchOptions, CommandError>)
    ensures
        profile.editor@.len() == 0 <==> r is Err,
        r is Err ==> r->Err_0 is EditorNotSet,
        r is Ok ==> r->Ok_0.program@ == profile.editor@ && views(r->Ok_0.args@) == views(profile.editor_args@).push(path@)
            && r->Ok_0.cwd is None && !r->Ok_0.fork_mode && !r->Ok_0.quiet && r->Ok_0.env is None,
{
    match edit_file_options(profile.editor.as_str(), &profile.editor_args, path) {
        Some(o) => Ok(o),
        None => Err(CommandError::EditorNotSet),
    }
}

/// A line of a template text that is a command: one that does not start with `#`.
pub open spec fn is_command_line(l: Seq<char>) -> bool {
    !has_prefix(l, "#"@)
}

/// The commands of a template text: its lines, but those that start with `#`.
pub open spec fn template_commands(content: Seq<char>) -> Seq<Seq<char>> {
    lines_of(content).filter(|l: Seq<char>| is_command_line(l))
}

/// Reads the commands of a new template out of the text that the user wrote;
/// fails where there is none.
pub fn commands_from_text(content: &str) -> (r: Result<Vec<String>, CommandError>)
    ensures
        template_commands(content@).len() == 0 <==> r is Err,
        r is Err ==> r->Err_0 is NoCommands,
        r is Ok ==> views(r->Ok_0@) == template_commands(content@),
{
    let ls = lines(content);
    let ghost all = lines_of(content@);
    let ghost keep = |l: Seq<char>| is_command_line(l);
    let mut r: Vec<String> = Vec::new();
    let mut i: usize = 0;
    while i < ls.len()
        invariant
            ls@.len() == all.len(),
            all == lines_of(content@),
            forall|j: int| 0 <= j < ls@.len() ==> (#[trigger] ls@[j])@ == all[j],
            keep == (|l: Seq<char>| is_command_line(l)),
            i <= ls@.len(),
            views(r@) == all.take(i as int).filter(keep),
        decreases ls@.len() - i,
    {
        let ghost before = all.take(i as int);
        let ghost x = all[i as int];
        assert(all.take(i + 1) =~= before.push(x));
        assert(before.push(x).drop_last() =~= before);
        assert(before.push(x).last() == x);
        proof {
            reveal(Seq::filter);
        }
        if !starts_with(ls[i].as_str(), "#") {
            assert(keep(x));
            assert(before.push(x).filter(keep) == before.filter(keep).push(x));
            r.push(owned(ls[i].as_str()));
            assert(views(r@) =~= views(r@).drop_last().push(x));
        } else {
            assert(!keep(x));
            assert(before.push(x).filter(keep) == before.filter(keep));
        }
        i = i + 1;
    }
    assert(all.take(ls@.len() as int) =~= all);
    if r.len() == 0 {
        Err(CommandError::NoCommands)
    } else {
        Ok(r)
    }
}

} // verus!
