use vstd::prelude::*;

verus! {

/// A display notification; it carries nothing yet.
#[derive(Debug, Clone)]
pub struct DisplayNotification {}

} // verus!
