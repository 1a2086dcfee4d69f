use vstd::prelude::*;
use vstd::string::*;

verus! {

/// The run's settings, as the command line gives them.
#[derive(Debug, PartialEq)]
pub struct Args {
    /// The folder whose documents are read.
    pub input: std::path::PathBuf,
    /// Where records are written: a file, or a folder that gets a dated file.
    pub output: Option<std::path::PathBuf>,
    /// The largest chunk, in characters.
    pub chunk_size: usize,
    pub model: String,
    pub use_case: String,
}

/// The chunk size when none is given.
pub const DEFAULT_CHUNK_SIZE: usize = 10000;

/// Copies a list of strings into a new vector.
pub trait ToVecString {
    fn to_vec_string(&self) -> Vec<String>;
}

/// A copy of `items`, element for element.
pub fn copy_strings(items: &[String]) -> (r: Vec<String>)
    ensures
        r@.len() == items@.len(),
        forall|i: int| 0 <= i < r@.len() ==> (#[trigger] r@[i])@ == items@[i]@,
{
    let mut r: Vec<String> = Vec::new();
    let mut i: usize = 0;
    while i < items.len()
        invariant
            i <= items@.len(),
            r@.len() == i,
            forall|k: int| 0 <= k < i ==> (#[trigger] r@[k])@ == items@[k]@,
        decreases items@.len() - i,
    {
        r.push(items[i].clone());
        i = i + 1;
    }
    r
}

impl ToVecString for [String] {
    fn to_vec_string(&self) -> Vec<String> {
        copy_strings(self)
    }
}

} // verus!
