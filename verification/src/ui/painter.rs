use vstd::prelude::*;

use crate::models::chat::ChatNotification;
use crate::models::Notification;

verus! {

/// What a region of the surface does when pressed.
#[derive(Debug, Clone)]
pub enum HitAction {
    /// Answer the call with this id.
    Pickup(String),
    /// Reject the call with this id.
    Decline(String),
    /// Take the notification at this position off screen.
    Dismiss(usize),
}

/// The pressable regions of the card painted for `n` at position `idx`, in
/// the order they are laid out: a call card has a decline button, then a
/// pickup button, both for its call; any other card is one region that
/// dismisses it.
pub open spec fn card_actions_spec(n: Notification, idx: usize) -> Seq<HitAction> {
    match n {
        Notification::Call(c) => seq![HitAction::Decline(c.call_id), HitAction::Pickup(c.call_id)],
        _ => seq![HitAction::Dismiss(idx)],
    }
}

/// The pressable regions of the card painted for `notif` at position `idx`.
pub fn card_actions(notif: &Notification, idx: usize) -> (r: Vec<HitAction>)
    ensures
        r@ == card_actions_spec(*notif, idx),
        notif is Call ==> r@ == seq![
            HitAction::Decline(notif->Call_0.call_id),
            HitAction::Pickup(notif->Call_0.call_id),
        ],
        !(notif is Call) ==> r@ == seq![HitAction::Dismiss(idx)],
{
    match notif {
        Notification::Call(c) => vec![
            HitAction::Decline(c.call_id.clone()),
            HitAction::Pickup(c.call_id.clone()),
        ],
        _ => vec![HitAction::Dismiss(idx)],
    }
}

/// Every pressable region of a painted list, card after card in list order,
/// each card's regions in the order `card_actions_spec` gives.
pub open spec fn painted_actions(ns: Seq<Notification>) -> Seq<HitAction>
    decreases ns.len(),
{
    if ns.len() == 0 {
        Seq::empty()
    } else {
        painted_actions(ns.drop_last()) + card_actions_spec(ns.last(), (ns.len() - 1) as usize)
    }
}

/// Painting one more card keeps every region of the cards above and adds the
/// new card's regions, for its position, at the end.
pub proof fn lemma_painted_actions_push(ns: Seq<Notification>, n: Notification)
    requires
        ns.len() <= usize::MAX,
    ensures
        painted_actions(ns.push(n)) == painted_actions(ns) + card_actions_spec(n, ns.len() as usize),
{
    assert(ns.push(n).drop_last() == ns);
}

/// However long the list, every card has its regions among the painted ones:
/// each region of the card at position `i`, and in particular the dismiss
/// region of a card that is not a call, and the decline and pickup regions
/// of a call's card.
pub proof fn lemma_every_card_has_its_regions(ns: Seq<Notification>, i: int)
    requires
        0 <= i < ns.len(),
        ns.len() <= usize::MAX,
    ensures
        forall|k: int|
            0 <= k < card_actions_spec(ns[i], i as usize).len() ==> painted_actions(ns).contains(
                #[trigger] card_actions_spec(ns[i], i as usize)[k],
            ),
        !(ns[i] is Call) ==> painted_actions(ns).contains(HitAction::Dismiss(i as usize)),
        ns[i] is Call ==> painted_actions(ns).contains(HitAction::Decline(ns[i]->Call_0.call_id))
            && painted_actions(ns).contains(HitAction::Pickup(ns[i]->Call_0.call_id)),
    decreases ns.len(),
{
    let prefix = painted_actions(ns.drop_last());
    let card = card_actions_spec(ns[i], i as usize);
    if i == ns.len() - 1 {
        assert forall|k: int| 0 <= k < card.len() implies painted_actions(ns).contains(
            #[trigger] card[k],
        ) by {
            assert(painted_actions(ns)[prefix.len() + k] == card[k]);
        }
    } else {
        lemma_every_card_has_its_regions(ns.drop_last(), i);
        assert(ns.drop_last()[i] == ns[i]);
        assert forall|k: int| 0 <= k < card.len() implies painted_actions(ns).contains(
            #[trigger] card[k],
        ) by {
            assert(prefix.contains(card[k]));
            let j = choose|j: int| 0 <= j < prefix.len() && prefix[j] == card[k];
            assert(painted_actions(ns)[j] == card[k]);
        }
    }
    assert(card.len() > 0 ==> painted_actions(ns).contains(card[0]));
    if ns[i] is Call {
        assert(painted_actions(ns).contains(card[1]));
    }
}

/// The pressable regions of the list `notifications` as painted, top to
/// bottom.
pub fn paint_actions(notifications: &[&Notification]) -> (r: Vec<HitAction>)
    ensures
        r@ == painted_actions(notifications@.map_values(|n: &Notification| *n)),
{
    let ghost ns = notifications@.map_values(|n: &Notification| *n);
    let mut r: Vec<HitAction> = Vec::new();
    let mut i: usize = 0;
    while i < notifications.len()
        invariant
            i <= notifications@.len(),
            ns == notifications@.map_values(|n: &Notification| *n),
            r@ == painted_actions(ns.take(i as int)),
        decreases notifications@.len() - i,
    {
        let mut card = card_actions(notifications[i], i);
        r.append(&mut card);
        proof {
            assert(ns.take(i + 1).drop_last() == ns.take(i as int));
            assert(ns.take(i + 1).last() == *notifications@[i as int]);
        }
        i = i + 1;
    }
    assert(ns.take(i as int) == ns);
    r
}

/// The small line above a chat message: the application, a middle dot, and
/// the time it was sent.
pub fn chat_meta_line(chat: &ChatNotification) -> (r: String)
    ensures
        r@ == chat.app_name@ + " · "@ + chat.timestamp@,
{
    let mut line = chat.app_name.clone();
    line.append(" · ");
    line.append(chat.timestamp.as_str());
    line
}

} // verus!
