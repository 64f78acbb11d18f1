//! The `config` commands.
use vstd::prelude::*;
use crate::commands::CommandError;
use crate::config::{Profile, RecentOptions};
use crate::program::{edit_file_options, LaunchOptions};
use crate::text::views;

verus! {

/// The launch that opens the configuration file at `path` in the profile's
/// editor, with the editor's arguments before the path.
pub fn handle_edit(profile: &Profile, path: &str) -> (r: Result<LaunchOptions, CommandError>)
    ensures
        profile.editor@.len() == 0 <==> r is Err,
        r is Err ==> r->Err_0 is EditorNotSet,
        r is Ok ==> r->Ok_0.program@ == profile.editor@ && views(r->Ok_0.args@) == views(profile.editor_args@).push(path@)
            && r->Ok_0.cwd is None && !r->Ok_0.fork_mode && !r->Ok_0.quiet && r->Ok_0.env is None,
{
    match edit_file_options(profile.editor.as_str(), &profile.editor_args, path) {
        Some(o) => Ok(o),
        None => Err(CommandError::EditorNotSet),
    }
}

/// The `recent` command: with `clear`, forgets the recent project and gives
/// `None`; without, gives the recent project's name. Fails where the feature is
/// off or no project is remembered; then nothing changes.
pub fn handle_recent(recent: &mut RecentOptions, clear: bool) -> (r: Result<Option<String>, CommandError>)
    ensures
        !old(recent).enabled ==> r is Err && r->Err_0 is RecentDisabled,
        old(recent).enabled && old(recent).recent_project@.len() == 0 ==> r is Err && (if clear {
            r->Err_0 is NothingToClear
        } else {
            r->Err_0 is NoRecentProject
        }),
        r is Err ==> *final(recent) == *old(recent),
        r is Ok && clear ==> r->Ok_0 is None && final(recent).recent_project@.len() == 0 && final(recent).enabled,
        r is Ok && !clear ==> r->Ok_0 is Some && r->Ok_0->Some_0@ == old(recent).recent_project@ && *final(recent) == *old(recent),
        old(recent).enabled && old(recent).recent_project@.len() > 0 ==> r is Ok,
{
    if !recent.enabled {
        return Err(CommandError::RecentDisabled);
    }
    let empty = recent.recent_project.as_str().unicode_len() == 0;
    if clear {
        if empty {
            return Err(CommandError::NothingToClear);
        }
        recent.recent_project = String::new();
        Ok(None)
    } else {
        if empty {
            return Err(CommandError::NoRecentProject);
        }
        Ok(Some(recent.recent_project.clone()))
    }
}

} // verus!
