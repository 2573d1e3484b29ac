//! The places on the local file system that belong to a job.

use vstd::prelude::*;
use vstd::string::*;
use crate::ident::{id_text, law_id_text_is_injective, render_id};

verus! {

/// `name` below the directory `base`: the two joined by one `/`, which is
/// left out where `base` is empty or ends in one already.
pub open spec fn joined(base: Seq<char>, name: Seq<char>) -> Seq<char> {
    if base.len() == 0 {
        name
    } else if base.last() == '/' {
        base + name
    } else {
        base + seq!['/'] + name
    }
}

/// The directory of the job `id` below `parent`: it is named by the text
/// of the identifier, so the directories of two jobs never coincide.
pub open spec fn workspace_path(parent: Seq<char>, id: u128) -> Seq<char> {
    joined(parent, id_text(id))
}

/// The file inside a workspace that the input is fetched into.
pub open spec fn input_path(workspace: Seq<char>) -> Seq<char> {
    joined(workspace, "input"@)
}

/// Below one directory, different names are different paths.
pub proof fn lemma_joined_is_injective(base: Seq<char>, first: Seq<char>, second: Seq<char>)
    requires
        joined(base, first) == joined(base, second),
    ensures
        first == second,
{
    let lead = if base.len() == 0 {
        base
    } else if base.last() == '/' {
        base
    } else {
        base + seq!['/']
    };
    assert(joined(base, first) =~= lead + first);
    assert(joined(base, second) =~= lead + second);
    assert((lead + first).subrange(lead.len() as int, (lead + first).len() as int) =~= first);
    assert((lead + second).subrange(lead.len() as int, (lead + second).len() as int) =~= second);
}

/// **Workspaces keep apart.**  Below one parent directory, the workspaces
/// of two jobs are the same directory only if the jobs are the same: no
/// job ever works in, or removes, the directory of another.
pub proof fn law_workspaces_are_distinct(parent: Seq<char>, a: u128, b: u128)
    requires
        workspace_path(parent, a) == workspace_path(parent, b),
    ensures
        a == b,
{
    lemma_joined_is_injective(parent, id_text(a), id_text(b));
    law_id_text_is_injective(a, b);
}

/// Joins a name to a directory.
pub fn join(base: &str, name: &str) -> (path: String)
    ensures
        path@ == joined(base@, name@),
{
    let len: usize = base.unicode_len();
    let mut path = String::from_str(base);
    if len > 0 && base.get_char(len - 1) != '/' {
        proof {
            reveal_strlit("/");
        }
        path.append("/");
        assert("/"@ =~= seq!['/']);
    }
    path.append(name);
    path
}

/// The directory that holds everything local to one job.
pub fn workspace_dir(parent: &str, id: u128) -> (path: String)
    ensures
        path@ == workspace_path(parent@, id),
{
    let name = render_id(id);
    join(parent, name.as_str())
}

/// The file that a job's input is fetched into.
pub fn input_file(workspace: &str) -> (path: String)
    ensures
        path@ == input_path(workspace@),
{
    join(workspace, "input")
}

} // verus!
