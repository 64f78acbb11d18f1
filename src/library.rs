//! The project library: the projects found under a root directory, kept in an
//! ordered index that mirrors one scan of that directory.
//!
//! The library decides; the caller touches the filesystem. Each operation that
//! changes a directory takes the outcome of that change as an argument and
//! updates the index only where the change succeeded.
use indexmap::IndexMap;
use vstd::prelude::*;
use vstd::string::*;
use crate::index::{has_key, index_entries, index_get, index_insert, index_len, index_new, index_pairs, index_shift_remove};
use crate::naming::{is_system_directory, is_valid_name, name_verdict, system_directories, validate_project_name, NameError};
use crate::program::{LaunchOptions, ProgramError};
use crate::text::{has_prefix, lines, lines_of, owned, same_text, starts_with, trim, trimmed, views};

verus! {

/// The kind of a failed filesystem or process call.
#[derive(Debug, Clone, Copy, PartialEq, Eq, Structural)]
pub enum IoErrorKind {
    NotFound,
    PermissionDenied,
    AlreadyExists,
    Interrupted,
    Other,
}

/// Errors of the library's operations.
#[derive(Debug, Clone, Copy, PartialEq, Eq, Structural)]
pub enum LibraryError {
    /// A project or another entry with that name already exists.
    AlreadyExists,
    /// No project has that name.
    ProjectNotFound,
    /// The projects root is not a directory.
    InvalidPath,
    /// Removing a project's directory failed.
    FileSystemError,
    /// Cloning a repository failed.
    CloneFailed,
    /// Renaming a project's directory failed.
    FailedToRename(IoErrorKind),
    /// The name breaks the name rules.
    InvalidProjectName(NameError),
    /// Another filesystem call failed.
    IoError(IoErrorKind),
}

/// One project: its name and the path of its directory.
#[derive(Debug, Clone)]
pub struct Project {
    pub name: String,
    pub path: String,
}

impl Project {
    /// Makes a new project value.
    pub fn new(new_name: &str, new_path: String) -> (r: Project)
        ensures
            r.name@ == new_name@,
            r.path@ == new_path@,
    {
        Project { name: owned(new_name), path: new_path }
    }
}

/// What to clone with git: the remote, and optionally a branch and a directory name.
#[derive(Debug, Clone, Default)]
pub struct CloneOptions {
    pub remote: String,
    pub branch: Option<String>,
    pub name: Option<String>,
}

/// The arguments of `git` for a clone: `clone`, the remote, the directory name
/// if one is given, then `-b` and the branch if one is given.
pub open spec fn clone_args(o: CloneOptions) -> Seq<Seq<char>> {
    seq!["clone"@, o.remote@] + (if o.name is Some {
        seq![o.name->Some_0@]
    } else {
        Seq::empty()
    }) + (if o.branch is Some {
        seq!["-b"@, o.branch->Some_0@]
    } else {
        Seq::empty()
    })
}

/// One entry of the projects root, as a directory listing shows it.
#[derive(Debug, Clone)]
pub struct DirEntryInfo {
    pub name: String,
    pub is_dir: bool,
}

/// What a caller read of the projects root for a scan.
#[derive(Debug)]
pub struct DirScan {
    /// Whether the root is an existing directory.
    pub is_dir: bool,
    /// The root's entries, or why they could not be listed.
    pub entries: Result<Vec<DirEntryInfo>, IoErrorKind>,
    /// The text of the root's `.ignore` file, if there is one, or why it could not be read.
    pub ignore_file: Result<Option<String>, IoErrorKind>,
}

/// `name` under the directory `base`, with `/` as separator.
pub open spec fn path_join(base: Seq<char>, name: Seq<char>) -> Seq<char> {
    if base.len() == 0 {
        name
    } else if base.last() == '/' {
        base + name
    } else {
        base + seq!['/'] + name
    }
}

/// The path of `name` under the directory `base`.
pub fn join_path(base: &str, name: &str) -> (r: String)
    ensures
        r@ == path_join(base@, name@),
{
    let n = base.unicode_len();
    let mut r = base.to_owned();
    if n > 0 && base.get_char(n - 1) != '/' {
        r.append("/");
        proof {
            reveal_strlit("/");
        }
    }
    r.append(name);
    r
}

/// A line of an ignore file that names a project: not blank, not a comment.
pub open spec fn is_ignore_entry(t: Seq<char>) -> bool {
    t.len() > 0 && t[0] != '#'
}

/// The project names that an ignore file lists: its lines, trimmed, without
/// blank lines and lines that start with `#`.
pub open spec fn ignore_entries(content: Seq<char>) -> Seq<Seq<char>> {
    lines_of(content).map_values(|l: Seq<char>| trimmed(l)).filter(|t: Seq<char>| is_ignore_entry(t))
}

/// Reads the project names out of the text of an ignore file.
pub fn parse_ignore_file(content: &str) -> (r: Vec<String>)
    ensures
        views(r@) == ignore_entries(content@),
{
    let ls = lines(content);
    let ghost all = lines_of(content@).map_values(|l: Seq<char>| trimmed(l));
    let ghost keep = |t: Seq<char>| is_ignore_entry(t);
    let mut r: Vec<String> = Vec::new();
    let mut i: usize = 0;
    while i < ls.len()
        invariant
            ls@.len() == lines_of(content@).len(),
            forall|j: int| 0 <= j < ls@.len() ==> (#[trigger] ls@[j])@ == lines_of(content@)[j],
            all == lines_of(content@).map_values(|l: Seq<char>| trimmed(l)),
            keep == (|t: Seq<char>| is_ignore_entry(t)),
            i <= ls@.len(),
            views(r@) == all.take(i as int).filter(keep),
        decreases ls@.len() - i,
    {
        let t = trim(ls[i].as_str());
        let ghost before = all.take(i as int);
        let ghost x = trimmed(ls@[i as int]@);
        assert(all.take(i + 1) =~= before.push(x));
        assert(before.push(x).drop_last() =~= before);
        assert(before.push(x).last() == x);
        proof {
            reveal(Seq::filter);
        }
        if t.unicode_len() > 0 && t.get_char(0) != '#' {
            assert(keep(x));
            assert(before.push(x).filter(keep) == before.filter(keep).push(x));
            r.push(owned(t));
            assert(views(r@) =~= views(r@).drop_last().push(t@));
        } else {
            assert(!keep(x));
            assert(before.push(x).filter(keep) == before.filter(keep));
        }
        i = i + 1;
    }
    assert(all.take(ls@.len() as int) =~= all);
    r
}

/// A directory entry as the scan sees it: its name and whether it is a directory.
pub open spec fn entry_view(e: DirEntryInfo) -> (Seq<char>, bool) {
    (e.name@, e.is_dir)
}

/// An entry of the root is a project: a directory, not a system directory, not
/// hidden unless hidden entries are shown, and not ignored.
pub open spec fn is_listed(e: (Seq<char>, bool), display_hidden: bool, ignored: Seq<Seq<char>>) -> bool {
    &&& e.1
    &&& !system_directories().contains(e.0)
    &&& (display_hidden || !(e.0.len() > 0 && e.0[0] == '.'))
    &&& !ignored.contains(e.0)
}

/// The project names that a scan of `entries` finds, in listing order; a name
/// listed twice counts once, at its first place.
pub open spec fn scan_names(entries: Seq<(Seq<char>, bool)>, display_hidden: bool, ignored: Seq<Seq<char>>) -> Seq<Seq<char>>
    decreases entries.len(),
{
    if entries.len() == 0 {
        Seq::empty()
    } else {
        let prev = scan_names(entries.drop_last(), display_hidden, ignored);
        let e = entries.last();
        if is_listed(e, display_hidden, ignored) && !prev.contains(e.0) {
            prev.push(e.0)
        } else {
            prev
        }
    }
}

/// Each name with its path under `base`.
pub open spec fn with_paths(base: Seq<char>, names: Seq<Seq<char>>) -> Seq<(Seq<char>, Seq<char>)> {
    names.map_values(|n: Seq<char>| (n, path_join(base, n)))
}

proof fn lemma_has_key_with_paths(base: Seq<char>, names: Seq<Seq<char>>, n: Seq<char>)
    ensures
        has_key(with_paths(base, names), n) <==> names.contains(n),
{
    if names.contains(n) {
        let i = choose|i: int| 0 <= i < names.len() && names[i] == n;
        assert(with_paths(base, names)[i].0 == n);
    }
}

/// Every name that a scan finds is that of a listed entry, and none is found twice.
pub proof fn lemma_scan_names(entries: Seq<(Seq<char>, bool)>, display_hidden: bool, ignored: Seq<Seq<char>>)
    ensures
        scan_names(entries, display_hidden, ignored).no_duplicates(),
        forall|k: int| 0 <= k < scan_names(entries, display_hidden, ignored).len() ==> exists|j: int|
            0 <= j < entries.len() && (#[trigger] entries[j]).0 == #[trigger] scan_names(entries, display_hidden, ignored)[k]
                && is_listed(entries[j], display_hidden, ignored),
    decreases entries.len(),
{
    if entries.len() > 0 {
        let prev = scan_names(entries.drop_last(), display_hidden, ignored);
        lemma_scan_names(entries.drop_last(), display_hidden, ignored);
        let s = scan_names(entries, display_hidden, ignored);
        assert forall|k: int| 0 <= k < s.len() implies exists|j: int|
            0 <= j < entries.len() && (#[trigger] entries[j]).0 == #[trigger] s[k] && is_listed(entries[j], display_hidden, ignored) by {
            if k < prev.len() {
                let j = choose|j: int| 0 <= j < entries.drop_last().len() && (#[trigger] entries.drop_last()[j]).0 == prev[k]
                    && is_listed(entries.drop_last()[j], display_hidden, ignored);
                assert(entries[j] == entries.drop_last()[j]);
            } else {
                assert(entries[entries.len() - 1] == entries.last());
            }
        }
    }
}

/// The projects that a scan of `entries` under `path` finds, each with its path.
pub fn collect_projects(
    path: &str,
    entries: &Vec<DirEntryInfo>,
    display_hidden: bool,
    ignored: &Vec<String>,
) -> (r: IndexMap<String, String>)
    ensures
        index_entries(r) == with_paths(
            path@,
            scan_names(entries@.map_values(|e: DirEntryInfo| entry_view(e)), display_hidden, views(ignored@)),
        ),
{
    let ghost ev = entries@.map_values(|e: DirEntryInfo| entry_view(e));
    let ghost ign = views(ignored@);
    let mut m = index_new();
    let mut i: usize = 0;
    while i < entries.len()
        invariant
            ev == entries@.map_values(|e: DirEntryInfo| entry_view(e)),
            ign == views(ignored@),
            i <= entries@.len(),
            index_entries(m) == with_paths(path@, scan_names(ev.take(i as int), display_hidden, ign)),
        decreases entries@.len() - i,
    {
        let e = &entries[i];
        let ghost prev = scan_names(ev.take(i as int), display_hidden, ign);
        assert(ev.take(i + 1).drop_last() =~= ev.take(i as int));
        assert(ev.take(i + 1).last() == entry_view(*e));
        let listed = e.is_dir && !is_system_directory(e.name.as_str()) && (display_hidden
            || !starts_with(e.name.as_str(), ".")) && !contains_text(ignored, e.name.as_str());
        proof {
            reveal_strlit(".");
            assert("."@.len() == 1 && "."@[0] == '.');
            assert(has_prefix(e.name@, "."@) <==> (e.name@.len() > 0 && e.name@[0] == '.')) by {
                if e.name@.len() > 0 && e.name@[0] == '.' {
                    assert(e.name@.take(1) =~= "."@);
                }
                if has_prefix(e.name@, "."@) {
                    assert(e.name@.take(1)[0] == e.name@[0]);
                }
            }
            lemma_has_key_with_paths(path@, prev, e.name@);
        }
        if listed {
            if index_get(&m, e.name.as_str()).is_none() {
                let p = join_path(path, e.name.as_str());
                index_insert(&mut m, e.name.clone(), p);
                assert(index_entries(m) =~= with_paths(path@, prev.push(e.name@)));
            }
        }
        i = i + 1;
    }
    assert(ev.take(entries@.len() as int) =~= ev);
    m
}

/// Whether one of `v` holds the text `s`.
pub fn contains_text(v: &Vec<String>, s: &str) -> (r: bool)
    ensures
        r == views(v@).contains(s@),
{
    let mut i: usize = 0;
    while i < v.len()
        invariant
            i <= v@.len(),
            forall|j: int| 0 <= j < i ==> v@[j]@ != s@,
        decreases v@.len() - i,
    {
        if same_text(v[i].as_str(), s) {
            assert(views(v@)[i as int] == s@);
            return true;
        }
        i = i + 1;
    }
    proof {
        lemma_not_contained(v@, s@);
    }
    false
}

proof fn lemma_not_contained(v: Seq<String>, s: Seq<char>)
    requires
        forall|j: int| 0 <= j < v.len() ==> v[j]@ != s,
    ensures
        !views(v).contains(s),
{
    if views(v).contains(s) {
        let j = choose|j: int| 0 <= j < views(v).len() && views(v)[j] == s;
        assert(v[j]@ == s);
    }
}

/// What the library holds, as Verus sees it: the root, whether Windows device
/// names are refused, and the project names in index order.
pub struct LibraryView {
    pub base: Seq<char>,
    pub windows: bool,
    pub names: Seq<Seq<char>>,
}

impl LibraryView {
    /// The library holds a project named `n`.
    pub open spec fn contains(self, n: Seq<char>) -> bool {
        self.names.contains(n)
    }

    /// The path of the project named `n`.
    pub open spec fn path_of(self, n: Seq<char>) -> Seq<char> {
        path_join(self.base, n)
    }

    /// The same library with other project names.
    pub open spec fn with_names(self, names: Seq<Seq<char>>) -> LibraryView {
        LibraryView { base: self.base, windows: self.windows, names }
    }

    /// The project names without `n`.
    pub open spec fn without(self, n: Seq<char>) -> Seq<Seq<char>> {
        if self.contains(n) {
            self.names.remove(self.names.index_of(n))
        } else {
            self.names
        }
    }

    /// Whether a project named `n` may be created; `occupied` tells whether
    /// something already stands at its path.
    /// An entry on disk comes first, then the name rules; a name that the
    /// index still holds, though its directory is gone, fails last.
    pub open spec fn create_check(self, n: Seq<char>, occupied: bool) -> Result<(), LibraryError> {
        if occupied {
            Err(LibraryError::AlreadyExists)
        } else {
            match name_verdict(n, self.windows) {
                Err(e) => Err(LibraryError::InvalidProjectName(e)),
                Ok(_) => if self.contains(n) {
                    Err(LibraryError::AlreadyExists)
                } else {
                    Ok(())
                },
            }
        }
    }

    /// The library and the result after creating `n`, where making its
    /// directory had the outcome `made`.
    pub open spec fn create(self, n: Seq<char>, occupied: bool, made: Result<(), IoErrorKind>) -> (LibraryView, Result<(), LibraryError>) {
        match self.create_check(n, occupied) {
            Err(e) => (self, Err(e)),
            Ok(_) => match made {
                Err(k) => (self, Err(LibraryError::IoError(k))),
                Ok(_) => (self.with_names(self.names.push(n)), Ok(())),
            },
        }
    }

    /// The library and the result after deleting `n`, where removing its
    /// directory had the outcome `removed`.
    pub open spec fn delete(self, n: Seq<char>, removed: Result<(), IoErrorKind>) -> (LibraryView, Result<(), LibraryError>) {
        match removed {
            Err(_) => (self, Err(LibraryError::FileSystemError)),
            Ok(_) => (self.with_names(self.without(n)), Ok(())),
        }
    }

    /// Whether the project `old` may be renamed to `new`.
    pub open spec fn rename_check(self, old: Seq<char>, new: Seq<char>) -> Result<(), LibraryError> {
        if !self.contains(old) {
            Err(LibraryError::ProjectNotFound)
        } else if self.contains(new) {
            Err(LibraryError::AlreadyExists)
        } else {
            match name_verdict(new, self.windows) {
                Ok(_) => Ok(()),
                Err(e) => Err(LibraryError::InvalidProjectName(e)),
            }
        }
    }

    /// The library and the result after renaming `old` to `new`, where moving
    /// the directory had the outcome `moved`.
    pub open spec fn rename(self, old: Seq<char>, new: Seq<char>, moved: Result<(), IoErrorKind>) -> (LibraryView, Result<(), LibraryError>) {
        match self.rename_check(old, new) {
            Err(e) => (self, Err(e)),
            Ok(_) => match moved {
                Err(k) => (self, Err(LibraryError::FailedToRename(k))),
                Ok(_) => (self.with_names(self.without(old).push(new)), Ok(())),
            },
        }
    }
}

/// Creating a valid name that the library does not hold, where nothing stands
/// at its path, succeeds; afterwards the library holds the name, and looking it
/// up gives the project at that name under the root.
pub proof fn law_create_then_get(lib: LibraryView, n: Seq<char>)
    requires
        is_valid_name(n, lib.windows),
        !lib.contains(n),
    ensures
        lib.create(n, false, Ok(())).1 is Ok,
        lib.create(n, false, Ok(())).0.contains(n),
        lib.create(n, false, Ok(())).0.path_of(n) == path_join(lib.base, n),
{
    assert(lib.create(n, false, Ok(())).0.names.last() == n);
}

/// Creating is not idempotent: once a name was created, creating it again
/// fails with `AlreadyExists`, whatever the filesystem shows, and leaves the
/// library as it was.
pub proof fn law_create_twice(
    lib: LibraryView,
    n: Seq<char>,
    occupied: bool,
    made: Result<(), IoErrorKind>,
    occupied_again: bool,
    made_again: Result<(), IoErrorKind>,
)
    requires
        lib.create(n, occupied, made).1 is Ok,
    ensures
        lib.create(n, occupied, made).0.create(n, occupied_again, made_again) == (
            lib.create(n, occupied, made).0,
            Err::<(), LibraryError>(LibraryError::AlreadyExists),
        ),
{
    let after = lib.create(n, occupied, made).0;
    assert(after.names.last() == n);
    assert(after.contains(n));
}

/// A rename whose directory move fails leaves the library as it was: it still
/// holds the old name and not the new one.
pub proof fn law_failed_rename_keeps_index(lib: LibraryView, old: Seq<char>, new: Seq<char>, k: IoErrorKind)
    requires
        lib.rename_check(old, new) is Ok,
    ensures
        lib.rename(old, new, Err(k)).0 == lib,
        lib.rename(old, new, Err(k)).1 == Err::<(), LibraryError>(LibraryError::FailedToRename(k)),
        lib.rename(old, new, Err(k)).0.contains(old),
        !lib.rename(old, new, Err(k)).0.contains(new),
{
}

/// A scan finds only directories of the listing that are neither system
/// directories nor ignored, and hidden ones only where hidden entries are shown.
pub proof fn law_scan_filters(entries: Seq<(Seq<char>, bool)>, display_hidden: bool, ignored: Seq<Seq<char>>, n: Seq<char>)
    requires
        scan_names(entries, display_hidden, ignored).contains(n),
    ensures
        entries.contains((n, true)),
        !system_directories().contains(n),
        !ignored.contains(n),
        display_hidden || !(n.len() > 0 && n[0] == '.'),
{
    lemma_scan_names(entries, display_hidden, ignored);
    let s = scan_names(entries, display_hidden, ignored);
    let k = choose|k: int| 0 <= k < s.len() && s[k] == n;
    let j = choose|j: int| 0 <= j < entries.len() && (#[trigger] entries[j]).0 == s[k] && is_listed(entries[j], display_hidden, ignored);
    assert(entries[j] == (n, true));
}

/// Every name that enters the library through a successful create or rename
/// passes the name rules.
pub proof fn law_new_names_are_valid(
    lib: LibraryView,
    n: Seq<char>,
    occupied: bool,
    made: Result<(), IoErrorKind>,
    old: Seq<char>,
    moved: Result<(), IoErrorKind>,
)
    ensures
        lib.create(n, occupied, made).1 is Ok ==> is_valid_name(n, lib.windows),
        lib.rename(old, n, moved).1 is Ok ==> is_valid_name(n, lib.windows),
{
}

/// The names that an ignore file read for a scan lists.
pub open spec fn ignored_by(ignore_file: Result<Option<String>, IoErrorKind>) -> Seq<Seq<char>> {
    match ignore_file {
        Ok(Some(c)) => ignore_entries(c@),
        _ => Seq::empty(),
    }
}

/// The projects under one root directory, in the order of one scan and of the
/// creations and renames since.
pub struct Library {
    projects: IndexMap<String, String>,
    base_path: String,
    windows: bool,
}

impl View for Library {
    type V = LibraryView;

    closed spec fn view(&self) -> LibraryView {
        LibraryView {
            base: self.base_path@,
            windows: self.windows,
            names: index_entries(self.projects).map_values(|e: (Seq<char>, Seq<char>)| e.0),
        }
    }
}

impl Library {
    /// The index pairs each name, once, with its path under the root.
    pub closed spec fn wf(&self) -> bool {
        &&& index_entries(self.projects) == with_paths(self.base_path@, self@.names)
        &&& self@.names.no_duplicates()
    }

    proof fn lemma_names(base: Seq<char>, names: Seq<Seq<char>>)
        ensures
            with_paths(base, names).map_values(|e: (Seq<char>, Seq<char>)| e.0) == names,
    {
        assert(with_paths(base, names).map_values(|e: (Seq<char>, Seq<char>)| e.0) =~= names);
    }

    /// Makes a library of the projects under `path`, from what the caller read
    /// of that directory. `windows` adds the Windows device names to the name rules.
    pub fn new(path: &str, display_hidden: bool, windows: bool, scan: DirScan) -> (r: Result<Library, LibraryError>)
        ensures
            !scan.is_dir ==> r == Err::<Library, LibraryError>(LibraryError::InvalidPath),
            scan.is_dir && scan.entries is Err ==> r == Err::<Library, LibraryError>(LibraryError::IoError(scan.entries->Err_0)),
            scan.is_dir && scan.entries is Ok && scan.ignore_file is Err ==> r == Err::<Library, LibraryError>(
                LibraryError::IoError(scan.ignore_file->Err_0),
            ),
            scan.is_dir && scan.entries is Ok && scan.ignore_file is Ok ==> r is Ok && r->Ok_0.wf() && r->Ok_0@ == (LibraryView {
                base: path@,
                windows,
                names: scan_names(
                    scan.entries->Ok_0@.map_values(|e: DirEntryInfo| entry_view(e)),
                    display_hidden,
                    ignored_by(scan.ignore_file),
                ),
            }),
    {
        if !scan.is_dir {
            return Err(LibraryError::InvalidPath);
        }
        let ghost ignore_file = scan.ignore_file;
        let entries = match scan.entries {
            Ok(es) => es,
            Err(k) => return Err(LibraryError::IoError(k)),
        };
        let ignored = match scan.ignore_file {
            Ok(Some(c)) => parse_ignore_file(c.as_str()),
            Ok(None) => Vec::new(),
            Err(k) => return Err(LibraryError::IoError(k)),
        };
        assert(views(ignored@) =~= ignored_by(ignore_file));
        let projects = collect_projects(path, &entries, display_hidden, &ignored);
        let ghost names = scan_names(entries@.map_values(|e: DirEntryInfo| entry_view(e)), display_hidden, views(ignored@));
        proof {
            Self::lemma_names(path@, names);
            lemma_scan_names(entries@.map_values(|e: DirEntryInfo| entry_view(e)), display_hidden, views(ignored@));
        }
        Ok(Library { projects, base_path: owned(path), windows })
    }

    /// The path that the project named `name` has, or would have, under the root.
    pub fn project_path(&self, name: &str) -> (r: String)
        ensures
            r@ == self@.path_of(name@),
    {
        join_path(self.base_path.as_str(), name)
    }

    /// Whether the library holds a project named `name`.
    pub fn contains(&self, name: &str) -> (r: bool)
        requires
            self.wf(),
        ensures
            r == self@.contains(name@),
    {
        proof {
            lemma_has_key_with_paths(self.base_path@, self@.names, name@);
        }
        index_get(&self.projects, name).is_some()
    }

    /// The project named `name`.
    pub fn get(&self, name: &str) -> (r: Result<Project, LibraryError>)
        requires
            self.wf(),
        ensures
            r is Ok <==> self@.contains(name@),
            r is Ok ==> r->Ok_0.name@ == name@ && r->Ok_0.path@ == self@.path_of(name@),
            r is Err ==> r->Err_0 == LibraryError::ProjectNotFound,
    {
        proof {
            lemma_has_key_with_paths(self.base_path@, self@.names, name@);
        }
        match index_get(&self.projects, name) {
            Some(path) => Ok(Project::new(name, path)),
            None => Err(LibraryError::ProjectNotFound),
        }
    }

    /// Whether the library holds no project.
    pub fn is_empty(&self) -> (r: bool)
        requires
            self.wf(),
        ensures
            r == (self@.names.len() == 0),
    {
        index_len(&self.projects) == 0
    }

    /// The names of all projects, in index order.
    pub fn get_names(&self) -> (r: Vec<String>)
        requires
            self.wf(),
        ensures
            views(r@) == self@.names,
    {
        let pairs = index_pairs(&self.projects);
        let mut r: Vec<String> = Vec::new();
        let mut i: usize = 0;
        while i < pairs.len()
            invariant
                pairs@.len() == self@.names.len(),
                forall|j: int| 0 <= j < pairs@.len() ==> (#[trigger] pairs@[j]).0@ == index_entries(self.projects)[j].0,
                i <= pairs@.len(),
                r@.len() == i,
                views(r@) == self@.names.take(i as int),
            decreases pairs@.len() - i,
        {
            let ghost before = r@;
            r.push(pairs[i].0.clone());
            assert(self@.names[i as int] == index_entries(self.projects)[i as int].0);
            assert(r@ =~= before.push(r@[i as int]));
            assert(views(r@) =~= self@.names.take(i + 1));
            i = i + 1;
        }
        assert(self@.names.take(pairs@.len() as int) =~= self@.names);
        r
    }

    /// All projects, in index order.
    pub fn get_vec(&self) -> (r: Vec<Project>)
        requires
            self.wf(),
        ensures
            r@.len() == self@.names.len(),
            forall|i: int| 0 <= i < r@.len() ==> (#[trigger] r@[i]).name@ == self@.names[i] && r@[i].path@ == self@.path_of(self@.names[i]),
    {
        let pairs = index_pairs(&self.projects);
        let mut r: Vec<Project> = Vec::new();
        let mut i: usize = 0;
        while i < pairs.len()
            invariant
                self.wf(),
                pairs@.len() == self@.names.len(),
                forall|j: int| 0 <= j < pairs@.len() ==> (#[trigger] pairs@[j]).0@ == index_entries(self.projects)[j].0 && pairs@[j].1@ == index_entries(self.projects)[j].1,
                i <= pairs@.len(),
                r@.len() == i,
                forall|j: int| 0 <= j < i ==> (#[trigger] r@[j]).name@ == self@.names[j] && r@[j].path@ == self@.path_of(self@.names[j]),
            decreases pairs@.len() - i,
        {
            let p = Project::new(pairs[i].0.as_str(), pairs[i].1.clone());
            r.push(p);
            i = i + 1;
        }
        r
    }

    fn check_create(&self, name: &str, occupied: bool) -> (r: Result<(), LibraryError>)
        requires
            self.wf(),
        ensures
            r == self@.create_check(name@, occupied),
    {
        if occupied {
            return Err(LibraryError::AlreadyExists);
        }
        if let Err(e) = validate_project_name(name, self.windows) {
            return Err(LibraryError::InvalidProjectName(e));
        }
        if self.contains(name) {
            return Err(LibraryError::AlreadyExists);
        }
        Ok(())
    }

    /// Decides whether a project named `name` may be created, where `occupied`
    /// tells whether an entry already stands at its path; if so, gives the path
    /// of the directory to make.
    pub fn plan_create(&self, name: &str, occupied: bool) -> (r: Result<String, LibraryError>)
        requires
            self.wf(),
        ensures
            self@.create_check(name@, occupied) is Err ==> r == Err::<String, LibraryError>(self@.create_check(name@, occupied)->Err_0),
            self@.create_check(name@, occupied) is Ok ==> r is Ok && r->Ok_0@ == self@.path_of(name@),
    {
        match self.check_create(name, occupied) {
            Ok(()) => Ok(self.project_path(name)),
            Err(e) => Err(e),
        }
    }

    /// Creates the project `name`: `occupied` tells whether an entry already
    /// stood at its path, `made` how making its directory went. The index takes
    /// the project, last, only where both checks pass and the directory was made.
    pub fn create(&mut self, name: &str, occupied: bool, made: Result<(), IoErrorKind>) -> (r: Result<(), LibraryError>)
        requires
            old(self).wf(),
        ensures
            final(self).wf(),
            final(self)@.names.no_duplicates(),
            (final(self)@, r) == old(self)@.create(name@, occupied, made),
    {
        match self.check_create(name, occupied) {
            Err(e) => Err(e),
            Ok(()) => match made {
                Err(k) => Err(LibraryError::IoError(k)),
                Ok(()) => {
                    proof {
                        lemma_has_key_with_paths(self.base_path@, self@.names, name@);
                    }
                    let path = self.project_path(name);
                    index_insert(&mut self.projects, owned(name), path);
                    proof {
                        let names = old(self)@.names.push(name@);
                        assert(index_entries(self.projects) =~= with_paths(self.base_path@, names));
                        Self::lemma_names(self.base_path@, names);
                    }
                    Ok(())
                },
            },
        }
    }

    proof fn lemma_remove(base: Seq<char>, names: Seq<Seq<char>>, i: int)
        requires
            names.no_duplicates(),
            0 <= i < names.len(),
        ensures
            with_paths(base, names).remove(i) == with_paths(base, names.remove(i)),
            names.remove(i).no_duplicates(),
            names.index_of(names[i]) == i,
            forall|n: Seq<char>| names.remove(i).contains(n) <==> (names.contains(n) && n != names[i]),
    {
        assert(with_paths(base, names).remove(i) =~= with_paths(base, names.remove(i)));
        let r = names.remove(i);
        assert forall|a: int, b: int| 0 <= a < r.len() && 0 <= b < r.len() && a != b implies r[a] != r[b] by {
            let a2 = if a < i { a } else { a + 1 };
            let b2 = if b < i { b } else { b + 1 };
            assert(r[a] == names[a2] && r[b] == names[b2]);
        }
        assert forall|n: Seq<char>| r.contains(n) <==> (names.contains(n) && n != names[i]) by {
            if r.contains(n) {
                let a = choose|a: int| 0 <= a < r.len() && r[a] == n;
                let a2 = if a < i { a } else { a + 1 };
                assert(names[a2] == n);
            }
            if names.contains(n) && n != names[i] {
                let b = choose|b: int| 0 <= b < names.len() && names[b] == n;
                if b < i {
                    assert(r[b] == n);
                } else {
                    assert(r[b - 1] == n);
                }
            }
        }
    }

    /// Deletes the project `name` from the index, where removing its directory
    /// had the outcome `removed`; the index changes only on success.
    pub fn delete(&mut self, name: &str, removed: Result<(), IoErrorKind>) -> (r: Result<(), LibraryError>)
        requires
            old(self).wf(),
        ensures
            final(self).wf(),
            final(self)@.names.no_duplicates(),
            (final(self)@, r) == old(self)@.delete(name@, removed),
            r is Ok ==> !final(self)@.contains(name@),
            forall|m: Seq<char>| m != name@ ==> (final(self)@.contains(m) <==> old(self)@.contains(m)),
    {
        if removed.is_err() {
            return Err(LibraryError::FileSystemError);
        }
        self.remove_entry(name);
        Ok(())
    }

    fn remove_entry(&mut self, name: &str)
        requires
            old(self).wf(),
        ensures
            final(self).wf(),
            final(self)@ == old(self)@.with_names(old(self)@.without(name@)),
            !final(self)@.contains(name@),
            forall|m: Seq<char>| m != name@ ==> (final(self)@.contains(m) <==> old(self)@.contains(m)),
    {
        proof {
            lemma_has_key_with_paths(self.base_path@, self@.names, name@);
        }
        let ghost names = self@.names;
        let removed = index_shift_remove(&mut self.projects, name);
        proof {
            if removed is Some {
                let i = choose|i: int|
                    0 <= i < index_entries(old(self).projects).len() && index_entries(old(self).projects)[i] == (name@, removed->Some_0@)
                        && index_entries(self.projects) == index_entries(old(self).projects).remove(i);
                assert(names[i] == name@);
                Self::lemma_remove(self.base_path@, names, i);
                Self::lemma_names(self.base_path@, names.remove(i));
            }
        }
    }

    fn check_rename(&self, old_name: &str, new_name: &str) -> (r: Result<(), LibraryError>)
        requires
            self.wf(),
        ensures
            r == self@.rename_check(old_name@, new_name@),
    {
        if !self.contains(old_name) {
            return Err(LibraryError::ProjectNotFound);
        }
        if self.contains(new_name) {
            return Err(LibraryError::AlreadyExists);
        }
        match validate_project_name(new_name, self.windows) {
            Ok(()) => Ok(()),
            Err(e) => Err(LibraryError::InvalidProjectName(e)),
        }
    }

    /// Decides whether the project `old_name` may be renamed to `new_name`; if
    /// so, gives the directory's present and new paths.
    pub fn plan_rename(&self, old_name: &str, new_name: &str) -> (r: Result<(String, String), LibraryError>)
        requires
            self.wf(),
        ensures
            self@.rename_check(old_name@, new_name@) is Err ==> r == Err::<(String, String), LibraryError>(
                self@.rename_check(old_name@, new_name@)->Err_0,
            ),
            self@.rename_check(old_name@, new_name@) is Ok ==> r is Ok && r->Ok_0.0@ == self@.path_of(old_name@)
                && r->Ok_0.1@ == self@.path_of(new_name@),
    {
        match self.check_rename(old_name, new_name) {
            Ok(()) => Ok((self.project_path(old_name), self.project_path(new_name))),
            Err(e) => Err(e),
        }
    }

    /// Renames the project `old_name` to `new_name`, where moving its directory
    /// had the outcome `moved`. On success the old entry leaves the index and the
    /// new one goes last; on any failure the index is as it was.
    pub fn rename(&mut self, old_name: &str, new_name: &str, moved: Result<(), IoErrorKind>) -> (r: Result<(), LibraryError>)
        requires
            old(self).wf(),
        ensures
            final(self).wf(),
            final(self)@.names.no_duplicates(),
            (final(self)@, r) == old(self)@.rename(old_name@, new_name@, moved),
            r is Ok ==> !final(self)@.contains(old_name@) && final(self)@.contains(new_name@),
            r is Ok ==> forall|m: Seq<char>| m != old_name@ && m != new_name@ ==> (final(self)@.contains(m) <==> old(self)@.contains(m)),
    {
        match self.check_rename(old_name, new_name) {
            Err(e) => Err(e),
            Ok(()) => match moved {
                Err(k) => Err(LibraryError::FailedToRename(k)),
                Ok(()) => {
                    self.remove_entry(old_name);
                    let ghost mid = self@.names;
                    proof {
                        lemma_has_key_with_paths(self.base_path@, mid, new_name@);
                        if mid.contains(new_name@) {
                            let i = old(self)@.names.index_of(old_name@);
                            Self::lemma_remove(self.base_path@, old(self)@.names, i);
                        }
                    }
                    let path = self.project_path(new_name);
                    index_insert(&mut self.projects, owned(new_name), path);
                    proof {
                        let names = mid.push(new_name@);
                        assert(index_entries(self.projects) =~= with_paths(self.base_path@, names));
                        Self::lemma_names(self.base_path@, names);
                        assert(names[names.len() - 1] == new_name@);
                        assert forall|m: Seq<char>| names.contains(m) <==> (mid.contains(m) || m == new_name@) by {
                            if mid.contains(m) {
                                let a = choose|a: int| 0 <= a < mid.len() && mid[a] == m;
                                assert(names[a] == m);
                            }
                            if names.contains(m) && m != new_name@ {
                                let a = choose|a: int| 0 <= a < names.len() && names[a] == m;
                                assert(mid[a] == m);
                            }
                        }
                    }
                    Ok(())
                },
            },
        }
    }

    /// The launch of `git` that clones a repository into the projects root.
    pub fn clone(&self, options: &CloneOptions) -> (r: LaunchOptions)
        ensures
            r.program@ == "git"@,
            views(r.args@) == clone_args(*options),
            r.cwd is Some && r.cwd->Some_0@ == self@.base,
            !r.fork_mode,
            !r.quiet,
            r.env is None,
    {
        let mut args: Vec<String> = vec![owned("clone"), options.remote.clone()];
        assert(views(args@) =~= seq!["clone"@, options.remote@]);
        let ghost first = views(args@);
        match &options.name {
            Some(n) => {
                args.push(n.clone());
            },
            None => {},
        }
        let ghost second = views(args@);
        assert(second =~= first + (if options.name is Some {
            seq![options.name->Some_0@]
        } else {
            Seq::empty()
        }));
        match &options.branch {
            Some(b) => {
                args.push(owned("-b"));
                args.push(b.clone());
            },
            None => {},
        }
        assert(views(args@) =~= second + (if options.branch is Some {
            seq!["-b"@, options.branch->Some_0@]
        } else {
            Seq::empty()
        }));
        LaunchOptions {
            program: owned("git"),
            args,
            cwd: Some(self.base_path.clone()),
            fork_mode: false,
            quiet: false,
            env: None,
        }
    }

    /// The outcome of a clone, from the outcome of the `git` launch.
    pub fn clone_result(launched: Result<(), ProgramError>) -> (r: Result<(), LibraryError>)
        ensures
            launched is Ok <==> r is Ok,
            r is Err ==> r->Err_0 == LibraryError::CloneFailed,
    {
        match launched {
            Ok(()) => Ok(()),
            Err(_) => Err(LibraryError::CloneFailed),
        }
    }
}

} // verus!
