//! Attributes in their semantic form.

use vstd::prelude::*;
use crate::ids::SyntaxStablePtrId;

verus! {

/// An attribute of a declaration: its name and where it was written.
#[derive(Clone, Debug, PartialEq, Eq, Hash)]
pub struct Attribute {
    pub stable_ptr: SyntaxStablePtrId,
    pub id: String,
}

} // verus!
