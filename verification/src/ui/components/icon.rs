use vstd::prelude::*;

verus! {

/// An icon stored on this machine.
#[derive(Debug, Clone)]
pub struct LocalIcon {}

/// An icon to be fetched from a URL.
#[derive(Debug, Clone)]
pub struct UrlIcon {}

/// Where an icon comes from.
#[derive(Debug, Clone)]
pub enum Icon {
    Local(LocalIcon),
    FromUrl(UrlIcon),
}

} // verus!
