use vstd::prelude::*;

use crate::ui::components::icon::Icon;

verus! {

/// The well-known bus name of the phone bridge that answers calls.
pub const CROWNCRATE_SERVICE: &'static str = "io.crownos.crowncrate";

/// The object path of the phone bridge.
pub const CROWNCRATE_PATH: &'static str = "/io/crownos/crowncrate";

/// The interface of the phone bridge.
pub const CROWNCRATE_INTERFACE: &'static str = "io.crownos.crowncrate";

/// An incoming phone call.
#[derive(Debug, Clone)]
pub struct CallNotification {
    pub call_id: String,
    /// The caller's application icon; the daemon never fills it.
    pub app_icon: Option<Icon>,
    pub app_name: String,
    pub contact_avatar: String,
    pub contact_name: String,
    pub phone_number: String,
}

/// A method call to send to the phone bridge at `CROWNCRATE_SERVICE`,
/// `CROWNCRATE_PATH`, `CROWNCRATE_INTERFACE`: the method's name and its only
/// argument, the call's id.
#[derive(Debug, Clone)]
pub struct CrowncrateCall {
    pub method: &'static str,
    pub call_id: String,
}

/// The request that answers the call `call_id`.
pub open spec fn spec_pickup(call_id: Seq<char>) -> (Seq<char>, Seq<char>) {
    ("PickupCall"@, call_id)
}

/// The request that rejects the call `call_id`.
pub open spec fn spec_decline(call_id: Seq<char>) -> (Seq<char>, Seq<char>) {
    ("DeclineCall"@, call_id)
}

impl CrowncrateCall {
    /// The method name and the argument, as plain character sequences.
    pub open spec fn request(&self) -> (Seq<char>, Seq<char>) {
        (self.method@, self.call_id@)
    }
}

impl CallNotification {
    /// The request that picks up the call `call_id` (`PickupCall`).
    pub fn pickup(call_id: &str) -> (r: CrowncrateCall)
        ensures
            r.request() == spec_pickup(call_id@),
            r.method@ == "PickupCall"@,
            r.call_id@ == call_id@,
    {
        CrowncrateCall { method: "PickupCall", call_id: call_id.to_string() }
    }

    /// The request that declines the call `call_id` (`DeclineCall`).
    pub fn decline(call_id: &str) -> (r: CrowncrateCall)
        ensures
            r.request() == spec_decline(call_id@),
            r.method@ == "DeclineCall"@,
            r.call_id@ == call_id@,
    {
        CrowncrateCall { method: "DeclineCall", call_id: call_id.to_string() }
    }
}

} // verus!
