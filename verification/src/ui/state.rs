use vstd::prelude::*;

use crate::models::Notification;

verus! {

/// What the notification window can be told.
#[derive(Debug, Clone)]
pub enum Message {
    ToggleDoNotDisturb,
    ShowAllNotifications,
    ShowNotification(Notification),
    /// The pickup button of the call with this id was pressed.
    PickupCall(String),
    /// The decline button of the call with this id was pressed.
    DeclineCall(String),
}

/// The notification window's state: the do-not-disturb switch and the
/// notifications shown, oldest first.
#[derive(Debug, Clone)]
pub struct NotificationUIState {
    pub do_not_disturb: bool,
    pub notifications: Vec<Notification>,
}

impl Default for NotificationUIState {
    fn default() -> (r: Self)
        ensures
            !r.do_not_disturb,
            r.notifications@ == Seq::<Notification>::empty(),
    {
        NotificationUIState { do_not_disturb: false, notifications: Vec::new() }
    }
}

/// The window's state as plain values: the switch and the list shown.
pub open spec fn ui_view(state: NotificationUIState) -> (bool, Seq<Notification>) {
    (state.do_not_disturb, state.notifications@)
}

/// The state after `message`: the switch flips on `ToggleDoNotDisturb`; a
/// notification is appended on `ShowNotification` unless do-not-disturb is
/// on; every other message changes nothing.
pub open spec fn updated(state: (bool, Seq<Notification>), message: Message) -> (
    bool,
    Seq<Notification>,
) {
    match message {
        Message::ToggleDoNotDisturb => (!state.0, state.1),
        Message::ShowNotification(n) => if state.0 {
            state
        } else {
            (state.0, state.1.push(n))
        },
        _ => state,
    }
}

/// Applies `message` to the window's state.
pub fn update(state: &mut NotificationUIState, message: Message)
    ensures
        ui_view(*final(state)) == updated(ui_view(*old(state)), message),
        message is ToggleDoNotDisturb ==> final(state).do_not_disturb == !old(state).do_not_disturb
            && final(state).notifications@ == old(state).notifications@,
        message matches Message::ShowNotification(n) ==> (final(state).do_not_disturb
            == old(state).do_not_disturb && final(state).notifications@ == (if old(state).do_not_disturb {
            old(state).notifications@
        } else {
            old(state).notifications@.push(n)
        })),
        !(message is ToggleDoNotDisturb) && !(message is ShowNotification)
            ==> final(state).do_not_disturb == old(state).do_not_disturb
            && final(state).notifications@ == old(state).notifications@,
{
    match message {
        Message::ToggleDoNotDisturb => {
            state.do_not_disturb = !state.do_not_disturb;
        },
        Message::ShowAllNotifications => {},
        Message::ShowNotification(notification) => {
            if !state.do_not_disturb {
                state.notifications.push(notification);
            }
        },
        _ => {},
    }
}

/// Toggling flips do-not-disturb and leaves the list; showing appends the
/// notification unless do-not-disturb is on; every other message leaves the
/// state as it is.
pub proof fn lemma_update_effects(state: (bool, Seq<Notification>), message: Message)
    ensures
        message is ToggleDoNotDisturb ==> updated(state, message) == (!state.0, state.1),
        message matches Message::ShowNotification(n) ==> updated(state, message) == (if state.0 {
            state
        } else {
            (state.0, state.1.push(n))
        }),
        !(message is ToggleDoNotDisturb) && !(message is ShowNotification) ==> updated(state, message)
            == state,
{
}

/// Toggling do-not-disturb twice gives back the state it started from.
pub proof fn lemma_toggle_twice(state: (bool, Seq<Notification>))
    ensures
        updated(updated(state, Message::ToggleDoNotDisturb), Message::ToggleDoNotDisturb) == state,
{
}

/// A notification shown while do-not-disturb is off is the last one in the
/// list, after every earlier one; while it is on, showing changes nothing.
pub proof fn lemma_show_notification(state: (bool, Seq<Notification>), n: Notification)
    ensures
        !state.0 ==> updated(state, Message::ShowNotification(n)).1.last() == n,
        !state.0 ==> updated(state, Message::ShowNotification(n)).1.drop_last() == state.1,
        state.0 ==> updated(state, Message::ShowNotification(n)) == state,
{
    if !state.0 {
        assert(state.1.push(n).drop_last() == state.1);
    }
}

/// Do-not-disturb is only ever changed by `ToggleDoNotDisturb`, and only
/// `ShowNotification` adds to the list; nothing takes a notification away.
pub proof fn lemma_update_only_grows(state: (bool, Seq<Notification>), message: Message)
    ensures
        !(message is ToggleDoNotDisturb) ==> updated(state, message).0 == state.0,
        updated(state, message).1.len() >= state.1.len(),
        forall|i: int| 0 <= i < state.1.len() ==> updated(state, message).1[i] == state.1[i],
{
}

} // verus!
