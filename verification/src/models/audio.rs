use vstd::prelude::*;

verus! {

/// An audio notification; it carries nothing yet.
#[derive(Debug, Clone)]
pub struct AudioNotification {}

} // verus!
