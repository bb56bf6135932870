//! What a rendering backend hands back: the files it wrote.

use vstd::prelude::*;

verus! {

/// `std::path::PathBuf`, an owned file system path, carried through as it is.
#[verifier::external_type_specification]
#[verifier::external_body]
pub struct ExPathBuf(std::path::PathBuf);

/// The files that rendering a model produced, each where it was written.
#[derive(Debug, Clone)]
pub struct OutputFiles {
    pub scad_path: Option<std::path::PathBuf>,
    pub stl_path: Option<std::path::PathBuf>,
    pub step_path: Option<std::path::PathBuf>,
    pub bom_path: Option<std::path::PathBuf>,
}

impl Default for OutputFiles {
    /// No files written.
    fn default() -> (files: Self)
        ensures
            files.scad_path is None,
            files.stl_path is None,
            files.step_path is None,
            files.bom_path is None,
    {
        OutputFiles { scad_path: None, stl_path: None, step_path: None, bom_path: None }
    }
}

} // verus!
