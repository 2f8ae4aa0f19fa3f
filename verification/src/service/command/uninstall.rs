//! Removing `ract`.
use vstd::prelude::*;

verus! {

broadcast use vstd::string::group_string_axioms;

/// Something to delete.
#[derive(Debug, Clone, PartialEq, Eq)]
pub enum Removal {
    /// a file at this path
    File(String),
    /// a directory at this path, with all it holds
    Dir(String),
}

/// The path of `name` inside the directory `dir`.
pub open spec fn in_dir(dir: Seq<char>, name: Seq<char>) -> Seq<char> {
    dir + "/"@ + name
}

/// `dir/name`.
pub fn path_in(dir: &str, name: &str) -> (p: String)
    ensures
        p@ == in_dir(dir@, name@),
{
    let mut p = dir.to_string();
    p.append("/");
    p.append(name);
    p
}

/// What uninstalling removes, for `ract` installed as `exe_file` in the
/// directory `exe_dir`: the configuration (`.env`) beside the executable,
/// the `chain` directory beside it (the chain's configuration and the
/// sources it points into), then the executable itself.
pub fn uninstall_all(exe_dir: &str, exe_file: &str) -> (r: Vec<Removal>)
    ensures
        r@.len() == 3,
        r@[0] matches Removal::File(p) && p@ == in_dir(exe_dir@, ".env"@),
        r@[1] matches Removal::Dir(p) && p@ == in_dir(exe_dir@, "chain"@),
        r@[2] matches Removal::File(p) && p@ == exe_file@,
{
    vec![
        Removal::File(path_in(exe_dir, ".env")),
        Removal::Dir(path_in(exe_dir, "chain")),
        Removal::File(exe_file.to_string()),
    ]
}

} // verus!
