use vstd::prelude::*;

verus! {

/// The layer-shell namespace of the notification window.
pub fn namespace() -> (r: String)
    ensures
        r@ == "crownotify"@,
{
    "crownotify".to_string()
}

} // verus!
