//! The ways in which work on an environment fails.

use vstd::prelude::*;

verus! {

/// Why an environment could not be provided or changed.
#[derive(Clone, Copy, Debug, PartialEq, Eq, Structural)]
pub enum ProjectError {
    /// The base interpreter could not be found or queried.
    Interpreter,
    /// The environment has no directory into which packages are installed.
    NoSitePackages,
    /// A file or directory could not be read, written or moved.
    Io,
    /// The requirements could not be resolved.
    Resolution,
    /// The resolved distributions could not be installed.
    Installation,
}

} // verus!
