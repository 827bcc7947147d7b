use crate::version::LiteralVersion;
use vstd::prelude::*;

verus! {

/// A model description record.
pub struct ModelRdf {
    pub format_version: LiteralVersion<0, 5, 0>,
}

/// The marker of the 0.5 model description format.
pub struct ModelRdfV05 {}

} // verus!
