use vstd::prelude::*;

verus! {

/// The symbolic directory names the directory prompt understands.
#[derive(Clone, Copy, Debug, PartialEq, Eq, Structural)]
pub enum DirName {
    Downloads,
    Documents,
}

/// The conventional filesystem path, under the user's home directory, for a
/// symbolic directory name.
pub open spec fn spec_dir_path(name: DirName) -> Seq<char> {
    match name {
        DirName::Downloads => "~/Downloads"@,
        DirName::Documents => "~/Documents"@,
    }
}

/// Maps a symbolic directory name to its conventional path under the user's
/// home directory.
pub fn dir_path(name: DirName) -> (r: &'static str)
    ensures
        r@ == spec_dir_path(name),
{
    match name {
        DirName::Downloads => "~/Downloads",
        DirName::Documents => "~/Documents",
    }
}

} // verus!
