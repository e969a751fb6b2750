use vstd::prelude::*;

verus! {

/// A buffered image file. It holds no state of its own yet: creating one creates the
/// file, which the program around the library does.
pub struct FSBuffer {}

} // verus!
