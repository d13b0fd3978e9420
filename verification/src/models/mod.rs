pub mod audio;
pub mod call;
pub mod chat;
pub mod display;
pub mod general;
pub mod music;

use vstd::prelude::*;

use crate::models::audio::AudioNotification;
use crate::models::call::CallNotification;
use crate::models::chat::ChatNotification;
use crate::models::display::DisplayNotification;
use crate::models::general::GeneralNotification;
use crate::models::music::MusicNotification;

verus! {

/// Every kind of notification the daemon can show.
#[derive(Debug, Clone)]
pub enum Notification {
    General(GeneralNotification),
    Call(CallNotification),
    Music(MusicNotification),
    Chat(ChatNotification),
    Audio(AudioNotification),
    Display(DisplayNotification),
}

/// The number of milliseconds after which a notification is taken off the
/// screen; 0 means that it stays until it is dismissed. Only general
/// notifications carry a timeout.
pub open spec fn expire_timeout_of(n: Notification) -> u32 {
    match n {
        Notification::General(g) => g.expire_timeout,
        _ => 0,
    }
}

/// Whether `n` is the notification of the call `call_id`.
pub open spec fn is_call_with_id(n: Notification, call_id: Seq<char>) -> bool {
    match n {
        Notification::Call(c) => c.call_id@ == call_id,
        _ => false,
    }
}

} // verus!
