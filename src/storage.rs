use vstd::prelude::*;

verus! {

/// Name of this utility's directory under the user's local data directory.
pub const DATA_SUBDIR: &'static str = "dashi/";

/// Why no storage path could be formed.
#[derive(Clone, Copy, Debug, PartialEq, Eq, Structural)]
pub enum StorageError {
    /// The user has no local data directory.
    NotFound,
}

/// `added` placed under `dir`: an absolute `added` stands alone, otherwise a
/// separator goes between the two unless `dir` is empty or already ends in one.
pub open spec fn joined(dir: Seq<char>, added: Seq<char>) -> Seq<char> {
    if added.len() > 0 && added[0] == '/' {
        added
    } else if dir.len() == 0 || dir.last() == '/' {
        dir + added
    } else {
        dir + seq!['/'] + added
    }
}

/// Joins two path texts the way a path join does.
pub fn join_path(dir: &str, added: &str) -> (r: String)
    ensures
        r@ == joined(dir@, added@),
{
    let added_len = added.unicode_len();
    if added_len > 0 && added.get_char(0) == '/' {
        return String::from_str(added);
    }
    let dir_len = dir.unicode_len();
    let base = String::from_str(dir);
    if dir_len == 0 || dir.get_char(dir_len - 1) == '/' {
        base.concat(added)
    } else {
        let sep = "/";
        proof {
            reveal_strlit("/");
        }
        let with_sep = base.concat(sep);
        assert(sep@ =~= seq!['/']);
        with_sep.concat(added)
    }
}

/// This utility's data directory under the user's local data directory, if
/// the user has one.
pub fn data_dir_path(local: Option<String>) -> (r: Option<String>)
    ensures
        local is None <==> r is None,
        r is Some ==> r->0@ == joined(local->0@, DATA_SUBDIR@),
{
    match local {
        Some(dir) => Some(join_path(dir.as_str(), DATA_SUBDIR)),
        None => None,
    }
}

/// A file's path in this utility's data directory; `NotFound` when there is
/// no data directory.
pub fn data_dir_file(data_dir: Option<String>, added: &str) -> (r: Result<String, StorageError>)
    ensures
        data_dir is None ==> r == Err::<String, StorageError>(StorageError::NotFound),
        data_dir is Some ==> r is Ok && r->Ok_0@ == joined(data_dir->0@, added@),
{
    match data_dir {
        Some(dir) => Ok(join_path(dir.as_str(), added)),
        None => Err(StorageError::NotFound),
    }
}

} // verus!
