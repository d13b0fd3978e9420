use std::collections::VecDeque;

use vstd::prelude::*;

use crate::models::call::{spec_decline, spec_pickup, CallNotification, CrowncrateCall};
use crate::models::{expire_timeout_of, is_call_with_id, Notification};
use crate::ui::painter::{card_actions_spec, HitAction};

verus! {

broadcast use vstd::std_specs::vecdeque::group_vec_dequeue_axioms;

/// A notification on screen, with the moment (in milliseconds on the
/// caller's monotonic clock) at which it arrived.
pub struct NotifItem {
    pub notif: Notification,
    pub added_ms: u64,
}

/// The list of notifications on screen and the do-not-disturb switch.
pub struct NotifyHandler {
    notifications: Vec<NotifItem>,
    do_not_disturb: bool,
}

/// What a press on the surface leads to: whether it hit anything, and the
/// request to send to the phone bridge, if any.
pub struct PressOutcome {
    pub handled: bool,
    pub call: Option<CrowncrateCall>,
}

/// Milliseconds from `added` to `now`; zero if the clock reads earlier.
pub open spec fn elapsed_ms(added: u64, now: u64) -> int {
    if now >= added {
        now - added
    } else {
        0
    }
}

/// Whether `item` is still on screen at `now`: it has no timeout, or its
/// timeout has not run out yet.
pub open spec fn stays(item: NotifItem, now: u64) -> bool {
    expire_timeout_of(item.notif) == 0 || elapsed_ms(item.added_ms, now) < expire_timeout_of(
        item.notif,
    )
}

/// `stays` at a fixed moment, as a predicate.
pub open spec fn stays_at(now: u64) -> spec_fn(NotifItem) -> bool {
    |item: NotifItem| stays(item, now)
}

/// The list that remains once the notifications whose time ran out by `now`
/// have been taken off.
pub open spec fn expired_at(items: Seq<NotifItem>, now: u64) -> Seq<NotifItem> {
    items.filter(stays_at(now))
}

/// Notifications received at `now`, in the order they arrived.
pub open spec fn stamped(incoming: Seq<Notification>, now: u64) -> Seq<NotifItem> {
    incoming.map_values(|n: Notification| NotifItem { notif: n, added_ms: now })
}

/// The list after the inbox has been emptied: under do-not-disturb what
/// arrived is dropped, else it is appended in arrival order.
pub open spec fn after_drain(
    items: Seq<NotifItem>,
    incoming: Seq<Notification>,
    dnd: bool,
    now: u64,
) -> Seq<NotifItem> {
    if dnd {
        items
    } else {
        items + stamped(incoming, now)
    }
}

/// The list without its first notification of the call `call_id`; the list
/// itself if it holds none.
pub open spec fn without_call(items: Seq<NotifItem>, call_id: Seq<char>) -> Seq<NotifItem>
    decreases items.len(),
{
    if items.len() == 0 {
        items
    } else if is_call_with_id(items[0].notif, call_id) {
        items.drop_first()
    } else {
        seq![items[0]] + without_call(items.drop_first(), call_id)
    }
}

/// The list after a press that hit `action` (or nothing).
pub open spec fn after_press(items: Seq<NotifItem>, action: Option<HitAction>) -> Seq<NotifItem> {
    match action {
        Some(HitAction::Decline(id)) => without_call(items, id@),
        Some(HitAction::Dismiss(idx)) => if idx < items.len() {
            items.remove(idx as int)
        } else {
            items
        },
        _ => items,
    }
}

/// The request that a press on `action` sends to the phone bridge, as a
/// method name and an argument.
pub open spec fn press_request(action: Option<HitAction>) -> Option<(Seq<char>, Seq<char>)> {
    match action {
        Some(HitAction::Pickup(id)) => Some(spec_pickup(id@)),
        Some(HitAction::Decline(id)) => Some(spec_decline(id@)),
        _ => None,
    }
}

impl NotifyHandler {
    /// The notifications on screen, oldest first.
    pub closed spec fn items(&self) -> Seq<NotifItem> {
        self.notifications@
    }

    /// Whether do-not-disturb is on.
    pub closed spec fn dnd(&self) -> bool {
        self.do_not_disturb
    }

    /// An empty screen with do-not-disturb off.
    pub fn new() -> (r: Self)
        ensures
            r.items() == Seq::<NotifItem>::empty(),
            !r.dnd(),
    {
        NotifyHandler { notifications: Vec::new(), do_not_disturb: false }
    }

    /// Switches do-not-disturb on or off.
    pub fn toggle_dnd(&mut self)
        ensures
            final(self).dnd() == !old(self).dnd(),
            final(self).items() == old(self).items(),
    {
        self.do_not_disturb = !self.do_not_disturb;
    }

    /// Whether do-not-disturb is on.
    pub fn do_not_disturb(&self) -> (r: bool)
        ensures
            r == self.dnd(),
    {
        self.do_not_disturb
    }

    /// The number of notifications on screen.
    pub fn len(&self) -> (r: usize)
        ensures
            r == self.items().len(),
    {
        self.notifications.len()
    }

    /// Takes every notification out of `inbox`, oldest first, and puts it on
    /// screen stamped with `now_ms`, unless do-not-disturb is on, in which case
    /// they are dropped. Returns whether anything was put on screen.
    pub fn drain_inbox(&mut self, inbox: &mut VecDeque<Notification>, now_ms: u64) -> (added: bool)
        ensures
            final(inbox)@.len() == 0,
            final(self).dnd() == old(self).dnd(),
            final(self).items() == after_drain(old(self).items(), old(inbox)@, old(self).dnd(), now_ms),
            added == (!old(self).dnd() && old(inbox)@.len() > 0),
            !old(self).dnd() ==> final(self).items().len() == old(self).items().len() + old(inbox)@.len(),
            !old(self).dnd() ==> forall|j: int|
                0 <= j < old(inbox)@.len() ==> #[trigger] final(self).items()[old(self).items().len() + j]
                    == (NotifItem { notif: old(inbox)@[j], added_ms: now_ms }),
            forall|j: int| 0 <= j < old(self).items().len() ==> #[trigger] final(self).items()[j] == old(self).items()[j],
    {
        let ghost incoming = inbox@;
        let ghost before = self.notifications@;
        let total = inbox.len();
        let mut added = false;
        let mut taken: usize = 0;
        while inbox.len() > 0
            invariant
                incoming.len() == total,
                taken <= incoming.len(),
                inbox@ == incoming.subrange(taken as int, incoming.len() as int),
                self.do_not_disturb == old(self).dnd(),
                self.notifications@ == after_drain(
                    before,
                    incoming.take(taken as int),
                    self.do_not_disturb,
                    now_ms,
                ),
                added == (!self.do_not_disturb && taken > 0),
            decreases inbox@.len(),
        {
            let popped = inbox.pop_front();
            match popped {
                Some(n) => {
                    proof {
                        assert(incoming.take(taken + 1) == incoming.take(taken as int).push(n));
                        assert(stamped(incoming.take(taken + 1), now_ms) == stamped(
                            incoming.take(taken as int),
                            now_ms,
                        ).push(NotifItem { notif: n, added_ms: now_ms }));
                    }
                    if !self.do_not_disturb {
                        self.notifications.push(NotifItem { notif: n, added_ms: now_ms });
                        added = true;
                    }
                    taken = taken + 1;
                },
                None => {},
            }
        }
        assert(incoming.take(taken as int) == incoming);
        proof {
            lemma_drain_appends_every_arrival(before, incoming, now_ms);
        }
        added
    }

    /// Takes off screen every notification whose timeout has run out at
    /// `now_ms`; the others keep their order. Returns whether any was taken
    /// off.
    pub fn expire(&mut self, now_ms: u64) -> (removed: bool)
        ensures
            final(self).dnd() == old(self).dnd(),
            final(self).items() == expired_at(old(self).items(), now_ms),
            removed == exists|i: int|
                0 <= i < old(self).items().len() && !stays(#[trigger] old(self).items()[i], now_ms),
            forall|i: int|
                0 <= i < old(self).items().len() && !(old(self).items()[i].notif is General)
                    ==> final(self).items().contains(#[trigger] old(self).items()[i]),
            forall|i: int|
                0 <= i < old(self).items().len() && old(self).items()[i].notif is General
                    && old(self).items()[i].added_ms <= now_ms ==> (final(self).items().contains(
                    #[trigger] old(self).items()[i],
                ) <==> (old(self).items()[i].notif->General_0.expire_timeout == 0 || now_ms
                    - old(self).items()[i].added_ms < old(self).items()[i].notif->General_0.expire_timeout)),
    {
        let ghost before = self.notifications@;
        let mut rest: Vec<NotifItem> = Vec::new();
        std::mem::swap(&mut rest, &mut self.notifications);
        let total = rest.len();
        let mut seen: usize = 0;
        while rest.len() > 0
            invariant
                seen + rest@.len() == total,
                total == before.len(),
                rest@ == before.subrange(seen as int, total as int),
                self.notifications@ == before.take(seen as int).filter(stays_at(now_ms)),
                self.do_not_disturb == old(self).dnd(),
            decreases rest@.len(),
        {
            let item = rest.remove(0);
            proof {
                reveal(Seq::filter);
                assert(before.take(seen + 1).drop_last() == before.take(seen as int));
                assert(before.take(seen + 1).last() == item);
            }
            let timeout = match &item.notif {
                Notification::General(g) => g.expire_timeout,
                _ => 0,
            };
            let elapsed: u64 = if now_ms >= item.added_ms {
                now_ms - item.added_ms
            } else {
                0
            };
            if timeout == 0 || elapsed < timeout as u64 {
                self.notifications.push(item);
            }
            seen = seen + 1;
        }
        assert(before.take(total as int) == before);
        proof {
            lemma_filter_keeps_all_iff(before, stays_at(now_ms));
            assert forall|i: int| 0 <= i < before.len() implies (expired_at(before, now_ms).contains(
                #[trigger] before[i],
            ) <==> stays(before[i], now_ms)) by {
                lemma_expire_removes_exactly_the_due(before, now_ms, i);
            }
        }
        self.notifications.len() != total
    }

    /// The notifications on screen, oldest first, as they are to be painted.
    pub fn notifications_snapshot(&self) -> (r: Vec<&Notification>)
        ensures
            r@.len() == self.items().len(),
            forall|i: int| 0 <= i < r@.len() ==> *r@[i] == self.items()[i].notif,
    {
        let mut r: Vec<&Notification> = Vec::new();
        let mut i: usize = 0;
        while i < self.notifications.len()
            invariant
                i <= self.notifications@.len(),
                r@.len() == i,
                forall|j: int| 0 <= j < i ==> *r@[j] == self.notifications@[j].notif,
            decreases self.notifications@.len() - i,
        {
            r.push(&self.notifications[i].notif);
            i = i + 1;
        }
        r
    }

    /// Carries out a press on the surface that hit `action`, or nothing.
    /// Pickup leaves the list as it is; decline takes the first notification
    /// of that call off screen; dismiss takes off the notification at that
    /// position, if there is one. Both call buttons ask for a request to the
    /// phone bridge.
    pub fn apply_press(&mut self, action: Option<HitAction>) -> (r: PressOutcome)
        ensures
            r.handled == action.is_some(),
            final(self).dnd() == old(self).dnd(),
            final(self).items() == after_press(old(self).items(), action),
            match r.call {
                Some(c) => press_request(action) == Some(c.request()),
                None => press_request(action).is_none(),
            },
            action is None ==> r.call is None && final(self).items() == old(self).items(),
            action matches Some(HitAction::Pickup(id)) ==> (final(self).items() == old(self).items()
                && r.call is Some && r.call->0.method@ == "PickupCall"@ && r.call->0.call_id@ == id@),
            action matches Some(HitAction::Decline(id)) ==> (r.call is Some && r.call->0.method@
                == "DeclineCall"@ && r.call->0.call_id@ == id@),
            action matches Some(HitAction::Dismiss(idx)) ==> r.call is None && (if idx < old(
                self,
            ).items().len() {
                final(self).items() == old(self).items().remove(idx as int)
            } else {
                final(self).items() == old(self).items()
            }),
    {
        match action {
            Some(HitAction::Pickup(id)) => {
                PressOutcome { handled: true, call: Some(CallNotification::pickup(id.as_str())) }
            },
            Some(HitAction::Decline(id)) => {
                let request = CallNotification::decline(id.as_str());
                self.remove_call(&id);
                PressOutcome { handled: true, call: Some(request) }
            },
            Some(HitAction::Dismiss(idx)) => {
                if idx < self.notifications.len() {
                    self.notifications.remove(idx);
                }
                PressOutcome { handled: true, call: None }
            },
            None => PressOutcome { handled: false, call: None },
        }
    }

    /// Takes the first notification of the call `call_id` off screen.
    fn remove_call(&mut self, call_id: &String)
        ensures
            final(self).dnd() == old(self).dnd(),
            final(self).items() == without_call(old(self).items(), call_id@),
    {
        let mut i: usize = 0;
        let mut found = false;
        while i < self.notifications.len()
            invariant_except_break
                !found,
                forall|j: int| 0 <= j < i ==> !is_call_with_id(#[trigger] self.notifications@[j].notif, call_id@),
            invariant
                i <= self.notifications@.len(),
                self.notifications@ == old(self).items(),
                self.do_not_disturb == old(self).dnd(),
            ensures
                found ==> i < self.notifications@.len() && is_call_with_id(self.notifications@[i as int].notif, call_id@)
                    && forall|j: int| 0 <= j < i ==> !is_call_with_id(#[trigger] self.notifications@[j].notif, call_id@),
                !found ==> forall|j: int| 0 <= j < self.notifications@.len() ==> !is_call_with_id(#[trigger] self.notifications@[j].notif, call_id@),
            decreases self.notifications@.len() - i,
        {
            let matches = match &self.notifications[i].notif {
                Notification::Call(c) => c.call_id == *call_id,
                _ => false,
            };
            if matches {
                found = true;
                break;
            }
            i = i + 1;
        }
        proof {
            lemma_without_call_first(self.notifications@, call_id@, if found { i as int } else { self.notifications@.len() as int });
        }
        if found {
            self.notifications.remove(i);
        }
    }
}

/// A filtered sequence is as long as the sequence exactly when every element
/// passes the filter.
proof fn lemma_filter_keeps_all_iff(s: Seq<NotifItem>, pred: spec_fn(NotifItem) -> bool)
    ensures
        (s.filter(pred).len() == s.len()) == (forall|i: int| 0 <= i < s.len() ==> pred(#[trigger] s[i])),
    decreases s.len(),
{
    reveal(Seq::filter);
    if s.len() > 0 {
        lemma_filter_keeps_all_iff(s.drop_last(), pred);
        s.drop_last().lemma_filter_len(pred);
        if forall|i: int| 0 <= i < s.len() ==> pred(#[trigger] s[i]) {
            assert forall|i: int| 0 <= i < s.drop_last().len() implies pred(#[trigger] s.drop_last()[i]) by {
                assert(s.drop_last()[i] == s[i]);
            }
        } else {
            let k = choose|k: int| 0 <= k < s.len() && !pred(#[trigger] s[k]);
            if k < s.len() - 1 {
                assert(s.drop_last()[k] == s[k]);
            }
        }
    }
}

/// Declining takes off exactly the first notification of the call: when
/// position `k` holds the first notification of the call, the list loses
/// position `k` and nothing else; when no notification belongs to the call
/// (`k` is the length), the list is left as it is.
pub proof fn lemma_without_call_first(items: Seq<NotifItem>, call_id: Seq<char>, k: int)
    requires
        0 <= k <= items.len(),
        forall|j: int| 0 <= j < k ==> !is_call_with_id(#[trigger] items[j].notif, call_id),
        k < items.len() ==> is_call_with_id(items[k].notif, call_id),
    ensures
        k < items.len() ==> without_call(items, call_id) == items.remove(k),
        k == items.len() ==> without_call(items, call_id) == items,
    decreases items.len(),
{
    if items.len() > 0 {
        if k == 0 {
            assert(items.drop_first() == items.remove(0));
        } else {
            let rest = items.drop_first();
            assert forall|j: int| 0 <= j < k - 1 implies !is_call_with_id(#[trigger] rest[j].notif, call_id) by {
                assert(rest[j] == items[j + 1]);
            }
            lemma_without_call_first(rest, call_id, k - 1);
            if k < items.len() {
                assert(seq![items[0]] + rest.remove(k - 1) == items.remove(k));
            } else {
                assert(seq![items[0]] + rest == items);
            }
        }
    }
}

/// Finds, from `start` on, the first position holding a notification of the
/// call, given that position `i` holds one and none comes before `start`.
proof fn lemma_first_call_at_or_before(
    items: Seq<NotifItem>,
    call_id: Seq<char>,
    start: int,
    i: int,
) -> (k: int)
    requires
        0 <= start <= i < items.len(),
        is_call_with_id(items[i].notif, call_id),
        forall|j: int| 0 <= j < start ==> !is_call_with_id(#[trigger] items[j].notif, call_id),
    ensures
        start <= k <= i,
        is_call_with_id(items[k].notif, call_id),
        forall|j: int| 0 <= j < k ==> !is_call_with_id(#[trigger] items[j].notif, call_id),
    decreases i - start,
{
    if is_call_with_id(items[start].notif, call_id) {
        start
    } else {
        lemma_first_call_at_or_before(items, call_id, start + 1, i)
    }
}

/// Every element of `s` passes `pred`, so filtering leaves `s` as it is.
proof fn lemma_filter_all_pass(s: Seq<NotifItem>, pred: spec_fn(NotifItem) -> bool)
    requires
        forall|i: int| 0 <= i < s.len() ==> pred(#[trigger] s[i]),
    ensures
        s.filter(pred) == s,
    decreases s.len(),
{
    reveal(Seq::filter);
    if s.len() > 0 {
        assert forall|i: int| 0 <= i < s.drop_last().len() implies pred(#[trigger] s.drop_last()[i]) by {
            assert(s.drop_last()[i] == s[i]);
        }
        lemma_filter_all_pass(s.drop_last(), pred);
        assert(s.drop_last().push(s.last()) == s);
    }
}

/// A notification that arrives is never taken off screen at the moment it
/// arrives: whatever its timeout, it stays at its own arrival time.
pub proof fn lemma_arrival_stays(n: Notification, now: u64)
    ensures
        stays(NotifItem { notif: n, added_ms: now }, now),
{
}

/// What the inbox delivers while do-not-disturb is off is painted in the same
/// frame: emptying the inbox and then expiring at the same moment shows the
/// earlier notifications that are still due, followed by every new one in
/// arrival order. In particular the notification sent last is shown last.
pub proof fn lemma_delivered_notifications_are_shown(
    items: Seq<NotifItem>,
    incoming: Seq<Notification>,
    now: u64,
)
    ensures
        expired_at(after_drain(items, incoming, false, now), now) == expired_at(items, now)
            + stamped(incoming, now),
        incoming.len() > 0 ==> expired_at(after_drain(items, incoming, false, now), now).last()
            == (NotifItem { notif: incoming.last(), added_ms: now }),
{
    let fresh = stamped(incoming, now);
    assert forall|i: int| 0 <= i < fresh.len() implies stays_at(now)(#[trigger] fresh[i]) by {
        lemma_arrival_stays(incoming[i], now);
    }
    lemma_filter_all_pass(fresh, stays_at(now));
    Seq::filter_distributes_over_add(items, fresh, stays_at(now));
}

/// Under do-not-disturb, emptying the inbox leaves the screen as it was.
pub proof fn lemma_do_not_disturb_drops(
    items: Seq<NotifItem>,
    incoming: Seq<Notification>,
    now: u64,
)
    ensures
        after_drain(items, incoming, true, now) == items,
{
}

/// Only general notifications expire: every other notification on screen is
/// still on screen after any expiry.
pub proof fn lemma_only_general_expire(items: Seq<NotifItem>, now: u64, i: int)
    requires
        0 <= i < items.len(),
        !(items[i].notif is General),
    ensures
        expired_at(items, now).contains(items[i]),
{
    assert(stays_at(now)(items[i]));
    items.lemma_filter_contains(stays_at(now), i);
}

/// A general notification with a timeout of `t` milliseconds stays on screen
/// exactly while fewer than `t` milliseconds have passed since it arrived.
pub proof fn lemma_general_stays_until_its_timeout(item: NotifItem, now: u64)
    requires
        item.notif is General,
        item.notif->General_0.expire_timeout > 0,
        item.added_ms <= now,
    ensures
        stays(item, now) <==> now - item.added_ms < item.notif->General_0.expire_timeout,
{
}

/// A notification that does not stay at `now` is gone after expiring at
/// `now`, and one that stays is still there.
pub proof fn lemma_expire_removes_exactly_the_due(items: Seq<NotifItem>, now: u64, i: int)
    requires
        0 <= i < items.len(),
    ensures
        expired_at(items, now).contains(items[i]) <==> stays(items[i], now),
{
    if stays(items[i], now) {
        assert(stays_at(now)(items[i]));
        items.lemma_filter_contains(stays_at(now), i);
    } else if expired_at(items, now).contains(items[i]) {
        let j = choose|j: int| 0 <= j < expired_at(items, now).len() && expired_at(items, now)[j] == items[i];
        items.lemma_filter_pred(stays_at(now), j);
    }
}

/// With do-not-disturb off, emptying the inbox keeps every notification on
/// screen in place and appends every arrival, in arrival order, stamped with
/// the moment of the drain: none is lost, none is reordered.
pub proof fn lemma_drain_appends_every_arrival(
    items: Seq<NotifItem>,
    incoming: Seq<Notification>,
    now: u64,
)
    ensures
        after_drain(items, incoming, false, now).len() == items.len() + incoming.len(),
        forall|j: int| 0 <= j < items.len() ==> #[trigger] after_drain(items, incoming, false, now)[j] == items[j],
        forall|j: int|
            0 <= j < incoming.len() ==> #[trigger] after_drain(items, incoming, false, now)[items.len() + j]
                == (NotifItem { notif: incoming[j], added_ms: now }),
{
}

/// A notification with timeout 0 never expires.
pub proof fn lemma_zero_timeout_never_expires(item: NotifItem, now: u64)
    requires
        expire_timeout_of(item.notif) == 0,
    ensures
        stays(item, now),
{
}

/// Expiring twice at the same moment removes nothing the second time.
pub proof fn lemma_expire_idempotent(items: Seq<NotifItem>, now: u64)
    ensures
        expired_at(expired_at(items, now), now) == expired_at(items, now),
{
    let kept = expired_at(items, now);
    assert forall|i: int| 0 <= i < kept.len() implies stays_at(now)(#[trigger] kept[i]) by {
        items.lemma_filter_pred(stays_at(now), i);
    }
    lemma_filter_all_pass(kept, stays_at(now));
}

/// A notification that has expired stays expired: expiring at an earlier
/// moment and then at a later one leaves what expiring at the later moment
/// alone leaves.
pub proof fn lemma_expire_later_subsumes(items: Seq<NotifItem>, earlier: u64, later: u64)
    requires
        earlier <= later,
    ensures
        expired_at(expired_at(items, earlier), later) == expired_at(items, later),
    decreases items.len(),
{
    reveal(Seq::filter);
    if items.len() > 0 {
        lemma_expire_later_subsumes(items.drop_last(), earlier, later);
        let last = items.last();
        if stays(last, earlier) {
            assert(expired_at(items, earlier) == expired_at(items.drop_last(), earlier).push(last));
            assert(expired_at(items, earlier).drop_last() == expired_at(items.drop_last(), earlier));
        } else {
            assert(!stays(last, later));
        }
    }
}

/// Pressing the card painted at position `i` for a notification other than a
/// call offers exactly one region, which takes that very notification off
/// screen and sends nothing to the phone bridge.
pub proof fn lemma_dismiss_removes_painted_card(items: Seq<NotifItem>, i: usize)
    requires
        i < items.len(),
        !(items[i as int].notif is Call),
    ensures
        card_actions_spec(items[i as int].notif, i) == seq![HitAction::Dismiss(i)],
        after_press(items, Some(HitAction::Dismiss(i))) == items.remove(i as int),
        press_request(Some(HitAction::Dismiss(i))).is_none(),
{
}

/// On the card painted at position `i` for a call, the decline button takes a
/// notification of that same call off screen (the card itself when no
/// earlier card belongs to the call) and asks the phone bridge to decline
/// it; the pickup button leaves the screen as it is and asks the bridge to
/// pick the call up.
pub proof fn lemma_call_buttons_of_painted_card(items: Seq<NotifItem>, i: usize)
    requires
        i < items.len(),
        items[i as int].notif is Call,
    ensures
        ({
            let id = items[i as int].notif->Call_0.call_id;
            &&& card_actions_spec(items[i as int].notif, i) == seq![
                HitAction::Decline(id),
                HitAction::Pickup(id),
            ]
            &&& after_press(items, Some(HitAction::Pickup(id))) == items
            &&& press_request(Some(HitAction::Pickup(id))) == Some(spec_pickup(id@))
            &&& press_request(Some(HitAction::Decline(id))) == Some(spec_decline(id@))
            &&& exists|k: int|
                0 <= k <= i && is_call_with_id(#[trigger] items[k].notif, id@) && after_press(
                    items,
                    Some(HitAction::Decline(id)),
                ) == items.remove(k)
            &&& (forall|j: int| 0 <= j < i ==> !is_call_with_id(#[trigger] items[j].notif, id@))
                ==> after_press(items, Some(HitAction::Decline(id))) == items.remove(i as int)
        }),
{
    let id = items[i as int].notif->Call_0.call_id;
    assert(is_call_with_id(items[i as int].notif, id@));
    let k = lemma_first_call_at_or_before(items, id@, 0, i as int);
    lemma_without_call_first(items, id@, k);
    if forall|j: int| 0 <= j < i ==> !is_call_with_id(#[trigger] items[j].notif, id@) {
        lemma_without_call_first(items, id@, i as int);
    }
}

} // verus!
