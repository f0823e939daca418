//! The options of the command surface: what a caller hands the engine for
//! a launch, and for acquiring an image. Argument parsing itself lives
//! outside this library; these are the plain values it produces.

use vstd::prelude::*;

verus! {

/// A launch request: the filesystem root to confine to, the application to
/// run inside it, and the application's arguments. A launch is identified
/// by these three values alone; there is no persistent container record.
#[derive(Debug)]
pub struct RunOpts {
    /// The root directory path, fully populated by the caller.
    pub fsroot: String,
    /// The path of the application to run.
    pub app: String,
    /// Arguments to be passed to the application.
    pub arguments: Vec<String>,
}

/// A request to acquire an image: its name and tag. Image acquisition is
/// handled outside this library.
#[derive(Debug)]
pub struct PullOpts {
    /// The image name.
    pub image: String,
    /// The tag of the image.
    pub tag: String,
}

} // verus!
