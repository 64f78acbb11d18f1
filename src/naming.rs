//! Rules for the names that a project may take.
use vstd::prelude::*;
use crate::text::{chars_of, same_text};

verus! {

/// Why a project name was refused.
#[derive(Debug, Clone, Copy, PartialEq, Eq, Structural)]
pub enum NameError {
    /// The name is the empty string.
    Empty,
    /// The name holds a character that paths do not allow.
    InvalidCharacters,
    /// The name is `.` or `..`.
    DotName,
    /// The name is one of the directories that systems keep for themselves.
    SystemName,
    /// The name is a device name that Windows reserves.
    ReservedName,
}

/// Characters that may not stand in a project name.
pub open spec fn is_path_unsafe(c: char) -> bool {
    c == '/' || c == '\\' || c == ':' || c == '*' || c == '?' || c == '"' || c == '<' || c == '>'
        || c == '|'
}

/// Two characters are equal up to ASCII case. Only ASCII letters fold: a
/// non-ASCII letter whose upper case is an ASCII letter (such as the dotless
/// `ı`) does not match that letter, so `$RECYCLE.BıN` is not a system name.
pub open spec fn same_letter(a: char, b: char) -> bool {
    ||| a == b
    ||| ('a' <= a <= 'z' && a as u32 == b as u32 + 32)
    ||| ('A' <= a <= 'Z' && a as u32 + 32 == b as u32)
}

/// Two strings are equal up to ASCII case.
pub open spec fn same_ignoring_case(a: Seq<char>, b: Seq<char>) -> bool {
    &&& a.len() == b.len()
    &&& forall|i: int| 0 <= i < a.len() ==> same_letter(#[trigger] a[i], b[i])
}

pub fn char_same_letter(a: char, b: char) -> (r: bool)
    ensures
        r == same_letter(a, b),
{
    if a == b {
        true
    } else if 'a' <= a && a <= 'z' {
        a as u32 == b as u32 + 32
    } else if 'A' <= a && a <= 'Z' {
        a as u32 + 32 == b as u32
    } else {
        false
    }
}

/// Directories that systems create for themselves and that are never projects.
pub open spec fn system_directories() -> Seq<Seq<char>> {
    seq![
        "."@,
        ".."@,
        "$RECYCLE.BIN"@,
        "System Volume Information"@,
        "msdownld.tmp"@,
        ".Trash-1000"@,
    ]
}

/// The name is one of the system directories, up to ASCII case.
pub open spec fn is_system_name(n: Seq<char>) -> bool {
    exists|k: int| 0 <= k < system_directories().len() && same_ignoring_case(n, #[trigger] system_directories()[k])
}

/// `n` is a Windows device name: `CON`, `PRN`, `AUX`, `NUL`, or `COM` or `LPT`
/// followed by a digit from 1 to 9, in any ASCII case.
pub open spec fn is_reserved_device_name(n: Seq<char>) -> bool {
    ||| same_ignoring_case(n, "CON"@)
    ||| same_ignoring_case(n, "PRN"@)
    ||| same_ignoring_case(n, "AUX"@)
    ||| same_ignoring_case(n, "NUL"@)
    ||| (n.len() == 4 && (same_ignoring_case(n.take(3), "COM"@) || same_ignoring_case(
        n.take(3),
        "LPT"@,
    )) && '1' <= n[3] <= '9')
}

/// What the name rules say of `n`; `windows` adds the Windows device names.
pub open spec fn name_verdict(n: Seq<char>, windows: bool) -> Result<(), NameError> {
    if n.len() == 0 {
        Err(NameError::Empty)
    } else if exists|i: int| 0 <= i < n.len() && is_path_unsafe(#[trigger] n[i]) {
        Err(NameError::InvalidCharacters)
    } else if n == seq!['.'] || n == seq!['.', '.'] {
        Err(NameError::DotName)
    } else if is_system_name(n) {
        Err(NameError::SystemName)
    } else if windows && is_reserved_device_name(n) {
        Err(NameError::ReservedName)
    } else {
        Ok(())
    }
}

/// Whether `n` may name a new project.
pub open spec fn is_valid_name(n: Seq<char>, windows: bool) -> bool {
    name_verdict(n, windows) is Ok
}

/// Whether the characters of `a` from `start` on begin with the text `b`, up to ASCII case,
/// and `a` ends there.
fn rest_same_ignoring_case(a: &Vec<char>, start: usize, b: &str) -> (r: bool)
    requires
        start <= a@.len(),
    ensures
        r == same_ignoring_case(a@.subrange(start as int, a@.len() as int), b@),
{
    let n = b.unicode_len();
    let len = a.len();
    if len - start != n {
        return false;
    }
    let ghost tail = a@.subrange(start as int, a@.len() as int);
    let mut i: usize = 0;
    while i < n
        invariant
            n == b@.len(),
            start + n == len,
            len == a@.len(),
            tail == a@.subrange(start as int, a@.len() as int),
            i <= n,
            forall|j: int| 0 <= j < i ==> same_letter(#[trigger] tail[j], b@[j]),
        decreases n - i,
    {
        if !char_same_letter(a[start + i], b.get_char(i)) {
            assert(!same_letter(tail[i as int], b@[i as int]));
            return false;
        }
        i = i + 1;
    }
    true
}

/// Whether `a` and `b` are equal up to ASCII case.
pub fn text_same_ignoring_case(a: &Vec<char>, b: &str) -> (r: bool)
    ensures
        r == same_ignoring_case(a@, b@),
{
    let r = rest_same_ignoring_case(a, 0, b);
    assert(a@.subrange(0, a@.len() as int) =~= a@);
    r
}

/// Whether `a` is one of the system directories, up to ASCII case.
fn system_name(a: &Vec<char>) -> (r: bool)
    ensures
        r == is_system_name(a@),
{
    let r = text_same_ignoring_case(a, ".") || text_same_ignoring_case(a, "..")
        || text_same_ignoring_case(a, "$RECYCLE.BIN") || text_same_ignoring_case(
        a,
        "System Volume Information",
    ) || text_same_ignoring_case(a, "msdownld.tmp") || text_same_ignoring_case(a, ".Trash-1000");
    proof {
        let d = system_directories();
        if r {
            if same_ignoring_case(a@, "."@) { assert(d[0] == "."@); }
            else if same_ignoring_case(a@, ".."@) { assert(d[1] == ".."@); }
            else if same_ignoring_case(a@, "$RECYCLE.BIN"@) { assert(d[2] == "$RECYCLE.BIN"@); }
            else if same_ignoring_case(a@, "System Volume Information"@) { assert(d[3] == "System Volume Information"@); }
            else if same_ignoring_case(a@, "msdownld.tmp"@) { assert(d[4] == "msdownld.tmp"@); }
            else { assert(d[5] == ".Trash-1000"@); }
        } else {
            assert forall|k: int| 0 <= k < d.len() implies !same_ignoring_case(a@, #[trigger] d[k]) by {
                assert(d[0] == "."@ && d[1] == ".."@ && d[2] == "$RECYCLE.BIN"@);
                assert(d[3] == "System Volume Information"@ && d[4] == "msdownld.tmp"@ && d[5] == ".Trash-1000"@);
            }
        }
    }
    r
}

/// Whether `a` is a Windows device name, up to ASCII case.
fn reserved_device_name(a: &Vec<char>) -> (r: bool)
    ensures
        r == is_reserved_device_name(a@),
{
    if text_same_ignoring_case(a, "CON") || text_same_ignoring_case(a, "PRN")
        || text_same_ignoring_case(a, "AUX") || text_same_ignoring_case(a, "NUL") {
        return true;
    }
    if a.len() != 4 {
        return false;
    }
    let head: Vec<char> = vec![a[0], a[1], a[2]];
    assert(head@ =~= a@.take(3));
    let d = a[3];
    (text_same_ignoring_case(&head, "COM") || text_same_ignoring_case(&head, "LPT")) && '1' <= d
        && d <= '9'
}

/// Checks `name` against the name rules. `windows` adds the device names that
/// Windows reserves (`CON`, `COM1`, ...), in any case.
pub fn validate_project_name(name: &str, windows: bool) -> (r: Result<(), NameError>)
    ensures
        r == name_verdict(name@, windows),
{
    let a = chars_of(name);
    if a.len() == 0 {
        return Err(NameError::Empty);
    }
    let mut i: usize = 0;
    while i < a.len()
        invariant
            a@ == name@,
            i <= a@.len(),
            forall|j: int| 0 <= j < i ==> !is_path_unsafe(#[trigger] a@[j]),
        decreases a@.len() - i,
    {
        let c = a[i];
        if c == '/' || c == '\\' || c == ':' || c == '*' || c == '?' || c == '"' || c == '<' || c
            == '>' || c == '|' {
            assert(is_path_unsafe(a@[i as int]));
            return Err(NameError::InvalidCharacters);
        }
        i = i + 1;
    }
    if (a.len() == 1 && a[0] == '.') || (a.len() == 2 && a[0] == '.' && a[1] == '.') {
        assert(a@ =~= seq!['.'] || a@ =~= seq!['.', '.']);
        return Err(NameError::DotName);
    }
    assert(a@ != seq!['.'] && a@ != seq!['.', '.']) by {
        if a@ == seq!['.'] { assert(a@[0] == '.'); }
        if a@ == seq!['.', '.'] { assert(a@[0] == '.' && a@[1] == '.'); }
    }
    if system_name(&a) {
        return Err(NameError::SystemName);
    }
    if windows && reserved_device_name(&a) {
        return Err(NameError::ReservedName);
    }
    Ok(())
}

/// Whether `name` is exactly one of the system directories.
pub fn is_system_directory(name: &str) -> (r: bool)
    ensures
        r == system_directories().contains(name@),
{
    let r = same_text(name, ".") || same_text(name, "..") || same_text(name, "$RECYCLE.BIN")
        || same_text(name, "System Volume Information") || same_text(name, "msdownld.tmp")
        || same_text(name, ".Trash-1000");
    proof {
        let d = system_directories();
        assert(d[0] == "."@ && d[1] == ".."@ && d[2] == "$RECYCLE.BIN"@);
        assert(d[3] == "System Volume Information"@ && d[4] == "msdownld.tmp"@ && d[5] == ".Trash-1000"@);
        if !r {
            assert forall|k: int| 0 <= k < d.len() implies d[k] != name@ by {}
        }
    }
    r
}

} // verus!
