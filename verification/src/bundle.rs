use vstd::prelude::*;

verus! {

/// Store options for Longrun and Oneshot
#[derive(Debug)]
pub struct BundleOptions {
    pub contents: Vec<String>,
}

} // verus!
