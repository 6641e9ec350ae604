//! What the file system is asked, and how its answers are read.

use crate::cc::args::{Options, OptionsView};
use vstd::prelude::*;
use vstd::string::*;

verus! {

/// Whether a path names a directory, given the outcome of asking for its
/// metadata: `None` when the metadata could not be had.
pub open spec fn is_directory(metadata: Option<bool>) -> bool {
    metadata == Some(true)
}

/// The path of the image that the compiler writes and the cleanup removes.
pub open spec fn gpp_output(options: OptionsView) -> Seq<char> {
    options.output + ".out"@
}

/// The path of the raw binary image, the product of a build.
pub open spec fn binary_output(options: OptionsView) -> Seq<char> {
    options.output + ".bin"@
}

/// Whether a path names a directory. `metadata` is what asking for the path's
/// metadata gave: whether it is a directory, or `None` when the question
/// failed. A path whose metadata cannot be had is no directory.
pub fn directory_exists(metadata: &Option<bool>) -> (exists: bool)
    ensures
        exists == is_directory(*metadata),
{
    match metadata {
        Some(is_dir) => *is_dir,
        None => false,
    }
}

/// The path of the image that the compiler writes and the cleanup removes.
pub fn gpp_output_path(options: &Options) -> (path: String)
    ensures
        path@ == gpp_output(options@),
{
    options.output.clone().concat(".out")
}

/// The path of the raw binary image, the product of a build.
pub fn binary_output_path(options: &Options) -> (path: String)
    ensures
        path@ == binary_output(options@),
{
    options.output.clone().concat(".bin")
}

} // verus!
