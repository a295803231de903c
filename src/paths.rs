use crate::constants::AETHER_DIR;
use vstd::prelude::*;

verus! {

/// Joins a relative component onto a base path with one `/` between them,
/// as a path join does for a relative component on Unix.
pub open spec fn path_join(base: Seq<char>, name: Seq<char>) -> Seq<char> {
    if base.len() == 0 {
        name
    } else if base.last() == '/' {
        base + name
    } else {
        base + seq!['/'] + name
    }
}

/// Appends the relative component `name` to `base`.
pub fn join_path(base: &str, name: &str) -> (r: String)
    ensures
        r@ == path_join(base@, name@),
{
    let n = base.unicode_len();
    if n == 0 {
        return name.to_string();
    }
    let mut r = base.to_string();
    if base.get_char(n - 1) != '/' {
        r.append("/");
        proof {
            reveal_strlit("/");
        }
    }
    r.append(name);
    r
}

/// The project root under `current_directory`.
pub open spec fn project_root_path(current_directory: Seq<char>) -> Seq<char> {
    path_join(current_directory, AETHER_DIR@)
}

/// Path of the project root, the reserved subdirectory of `current_directory`.
pub fn project_root(current_directory: &str) -> (r: String)
    ensures
        r@ == project_root_path(current_directory@),
{
    join_path(current_directory, AETHER_DIR)
}

} // verus!
