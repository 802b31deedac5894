use vstd::prelude::*;
use crate::text::string_from;

verus! {

/// `name` appended to the directory `dir` as `PathBuf::join` does for a
/// relative name: with a `/` between them unless `dir` is empty or already
/// ends with one.
pub open spec fn joined(dir: Seq<char>, name: Seq<char>) -> Seq<char> {
    if dir.len() == 0 || dir.last() == '/' {
        dir + name
    } else {
        dir + "/"@ + name
    }
}

/// `name` appended to the directory `dir` (see `joined`).
pub fn join_path(dir: &str, name: &str) -> (r: String)
    ensures
        r@ == joined(dir@, name@),
{
    let mut s = string_from(dir);
    let n = dir.unicode_len();
    if n > 0 && dir.get_char(n - 1) != '/' {
        s.append("/");
    }
    s.append(name);
    s
}

/// The runtime directory: the value of `XDG_RUNTIME_DIR` where it is set,
/// else `/tmp`.
pub fn runtime_dir(xdg_runtime_dir: Option<&str>) -> (r: String)
    ensures
        xdg_runtime_dir matches Some(d) ==> r@ == d@,
        xdg_runtime_dir is None ==> r@ == "/tmp"@,
{
    match xdg_runtime_dir {
        Some(d) => string_from(d),
        None => string_from("/tmp"),
    }
}

/// The lock file that keeps two update checks from running at once.
pub fn lock_path(runtime_dir: &str) -> (r: String)
    ensures
        r@ == joined(runtime_dir@, "cosmic-package-updater.lock"@),
{
    join_path(runtime_dir, "cosmic-package-updater.lock")
}

/// The file whose change tells the other instances that a check completed.
pub fn sync_path(runtime_dir: &str) -> (r: String)
    ensures
        r@ == joined(runtime_dir@, "cosmic-package-updater.sync"@),
{
    join_path(runtime_dir, "cosmic-package-updater.sync")
}

} // verus!
