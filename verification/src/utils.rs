//! Reading a file's extension.

use vstd::prelude::*;
use crate::errors::CompilationError;
use crate::paths::{extension_of, path_extension};

verus! {

/// The extension of `file`; `Ext` when it has none.
pub fn get_extension(file: &str) -> (res: Result<String, CompilationError>)
    ensures
        match path_extension(file@) {
            Some(ext) => res matches Ok(e) && e@ == ext,
            None => res matches Err(CompilationError::Ext),
        },
{
    match extension_of(file) {
        Some(ext) => Ok(ext),
        None => Err(CompilationError::Ext),
    }
}

} // verus!
