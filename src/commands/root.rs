//! The top-level commands: opening, resolving and recording projects.
use vstd::prelude::*;
use crate::autocomplete::{autocomplete, completion_resolution, is_completion, CompletionResult, Resolution};
use crate::commands::CommandError;
use crate::config::{AutocompleteOptions, Profile, RecentOptions};
use crate::library::Library;
use crate::program::{copy_strings, LaunchOptions};
use crate::text::{lower_of, owned, same_text, str_views, views};

verus! {

/// The name that the sentinel `-` stands for: the recent project.
pub open spec fn recent_sentinel() -> Seq<char> {
    "-"@
}

/// Resolves a typed project name: `-` gives the recent project where that is
/// remembered; else, with completion on, the name completes among the
/// library's projects; else the typed name stands as it is.
pub fn resolve_project_name(
    project_name: &str,
    recent: &RecentOptions,
    autocomplete_options: &AutocompleteOptions,
    projects: &Library,
) -> (r: Resolution)
    requires
        projects.wf(),
    ensures
        project_name@ == recent_sentinel() && recent.enabled ==> r is Resolved && r->Resolved_0@
            == recent.recent_project@,
        !(project_name@ == recent_sentinel() && recent.enabled) && autocomplete_options.enabled ==> exists|c: CompletionResult|
            is_completion(
                project_name@,
                projects@.names,
                lower_of(project_name@),
                projects@.names.map_values(|w: Seq<char>| lower_of(w)),
                c,
            ) && completion_resolution(project_name@, c, autocomplete_options.always_accept, r),
        !(project_name@ == recent_sentinel() && recent.enabled) && !autocomplete_options.enabled ==> r is Resolved
            && r->Resolved_0@ == project_name@,
{
    if recent.enabled && same_text(project_name, "-") {
        Resolution::Resolved(recent.recent_project.clone())
    } else if autocomplete_options.enabled {
        let names = projects.get_names();
        let mut words: Vec<&str> = Vec::new();
        let mut i: usize = 0;
        while i < names.len()
            invariant
                i <= names@.len(),
                words@.len() == i,
                forall|j: int| 0 <= j < i ==> (#[trigger] words@[j])@ == names@[j]@,
            decreases names@.len() - i,
        {
            words.push(names[i].as_str());
            i = i + 1;
        }
        assert(str_views(words@) =~= views(names@));
        autocomplete(project_name, words, autocomplete_options)
    } else {
        Resolution::Resolved(owned(project_name))
    }
}

/// The launch that opens a project at `project_path`: the profile's shell, in
/// the foreground, marked as a session in its environment; or the profile's
/// editor with its arguments and detach setting. Fails where that program is
/// not set.
pub fn open_options(profile: &Profile, project_path: &str, shell: bool) -> (r: Result<LaunchOptions, CommandError>)
    ensures
        (if shell {
            profile.shell@.len() == 0
        } else {
            profile.editor@.len() == 0
        }) <==> r is Err,
        r is Err ==> r->Err_0 is ProgramNotSet,
        r is Ok ==> {
            let o = r->Ok_0;
            &&& o.cwd is Some && o.cwd->Some_0@ == project_path@
            &&& !o.quiet
            &&& shell ==> o.program@ == profile.shell@ && o.args@.len() == 0 && !o.fork_mode && o.env is Some
                && o.env->Some_0@.len() == 1 && o.env->Some_0@[0].0@ == "KANRI_SESSION"@ && o.env->Some_0@[0].1@ == "1"@
            &&& !shell ==> o.program@ == profile.editor@ && views(o.args@) == views(profile.editor_args@)
                && o.fork_mode == profile.editor_fork_mode && o.env is None
        },
{
    if shell {
        if profile.shell.as_str().unicode_len() == 0 {
            return Err(CommandError::ProgramNotSet);
        }
        let env: Vec<(String, String)> = vec![(owned("KANRI_SESSION"), owned("1"))];
        Ok(LaunchOptions {
            program: profile.shell.clone(),
            args: Vec::new(),
            cwd: Some(owned(project_path)),
            fork_mode: false,
            quiet: false,
            env: Some(env),
        })
    } else {
        if profile.editor.as_str().unicode_len() == 0 {
            return Err(CommandError::ProgramNotSet);
        }
        Ok(LaunchOptions {
            program: profile.editor.clone(),
            args: copy_strings(&profile.editor_args),
            cwd: Some(owned(project_path)),
            fork_mode: profile.editor_fork_mode,
            quiet: false,
            env: None,
        })
    }
}

/// Records `name` as the recent project, where that is remembered; tells
/// whether the setting changed and so needs saving.
pub fn record_recent(recent: &mut RecentOptions, name: &str) -> (changed: bool)
    ensures
        changed == (old(recent).enabled && old(recent).recent_project@ != name@),
        final(recent).enabled == old(recent).enabled,
        changed ==> final(recent).recent_project@ == name@,
        !changed ==> *final(recent) == *old(recent),
{
    if recent.enabled && !same_text(recent.recent_project.as_str(), name) {
        recent.recent_project = owned(name);
        true
    } else {
        false
    }
}

} // verus!
