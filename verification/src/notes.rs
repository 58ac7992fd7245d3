//! The name of the file that keeps the notes of a project.

use vstd::prelude::*;
use vstd::string::StringExecFns;

verus! {

/// `c`, or an underscore in the place of a path separator.
pub open spec fn path_safe(c: char) -> char {
    if c == '/' || c == '\\' {
        '_'
    } else {
        c
    }
}

/// The name of the notes file of the project `project_id`: the identifier
/// with every slash and backslash turned into an underscore, and `.txt`
/// behind it.
pub open spec fn notes_file_name_of(project_id: Seq<char>) -> Seq<char> {
    Seq::new(project_id.len(), |i: int| path_safe(project_id[i])) + ".txt"@
}

/// The name of the notes file of the project `project_id`.
pub fn notes_file_name(project_id: &str) -> (name: String)
    ensures
        name@ == notes_file_name_of(project_id@),
{
    let mut name = String::new();
    for c in it: project_id.chars()
        invariant
            it.seq() == project_id@,
            name@ == Seq::new(it.index() as nat, |i: int| path_safe(project_id@[i])),
    {
        if c == '/' || c == '\\' {
            name.push('_');
        } else {
            name.push(c);
        }
    }
    name.append(".txt");
    name
}

/// The name of a notes file holds no path separator, whatever the project
/// is called: it names a file in the notes directory itself.
pub proof fn notes_file_name_has_no_separator(project_id: Seq<char>)
    ensures
        forall|i: int|
            0 <= i < notes_file_name_of(project_id).len() ==> {
                &&& (#[trigger] notes_file_name_of(project_id)[i]) != '/'
                &&& notes_file_name_of(project_id)[i] != '\\'
            },
{
    reveal_strlit(".txt");
}

} // verus!
