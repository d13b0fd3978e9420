use vstd::prelude::*;

use crate::models::call::CallNotification;
use crate::ui::state::Message;

verus! {

/// The messages the buttons of a call card send: pickup first, then decline
/// (hang up), both for the card's call.
pub fn call_card_messages(call: &CallNotification) -> (r: (Message, Message))
    ensures
        r.0 == Message::PickupCall(call.call_id),
        r.1 == Message::DeclineCall(call.call_id),
{
    (Message::PickupCall(call.call_id.clone()), Message::DeclineCall(call.call_id.clone()))
}

} // verus!
