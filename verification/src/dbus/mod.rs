pub mod custom;
pub mod freedesktop;

use std::collections::VecDeque;

use vstd::prelude::*;

use crate::models::Notification;

verus! {

/// Puts a notification received over D-Bus at the back of the inbox that the
/// screen empties on its next frame.
pub fn push_notification(inbox: &mut VecDeque<Notification>, notif: Notification)
    ensures
        final(inbox)@ == old(inbox)@.push(notif),
{
    inbox.push_back(notif);
}

} // verus!
