//! Which of the files that were built are released.

use crate::text::ends_with;
use crate::text::ends_with_text;
use crate::text::starts_with;
use crate::text::starts_with_text;
use vstd::prelude::*;

verus! {

/// Whether an entry of the build directory is released: it is a file, its
/// name does not begin with a dot, and it is no `.d` file.
pub open spec fn released(file_name: Seq<char>, is_file: bool) -> bool {
    is_file && !starts_with_text(file_name, "."@) && !ends_with_text(file_name, ".d"@)
}

/// Decides whether an entry of the build directory is released.
pub fn is_released(file_name: &str, is_file: bool) -> (release: bool)
    ensures
        release == released(file_name@, is_file),
{
    is_file && !starts_with(file_name, ".") && !ends_with(file_name, ".d")
}

} // verus!
