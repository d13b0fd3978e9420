use vstd::prelude::*;

use crate::models::general::GeneralNotification;
use crate::models::Notification;

verus! {

/// The version of the freedesktop notification specification implemented.
pub const NOTIFICATION_SPEC_VERSION: &'static str = "1.2";

/// The ids handed out to `Notify` callers: the last id given to a
/// notification that replaced none.
pub struct NotificationIds {
    current_id: u32,
}

impl NotificationIds {
    /// The last id handed out; 0 before the first.
    pub closed spec fn current(&self) -> u32 {
        self.current_id
    }

    /// No id handed out yet.
    pub fn new() -> (r: Self)
        ensures
            r.current() == 0,
    {
        NotificationIds { current_id: 0 }
    }

    /// The last id handed out.
    pub fn current_id(&self) -> (r: u32)
        ensures
            r == self.current(),
    {
        self.current_id
    }

    /// The id of a notification sent with `replaces_id`: that id when it is
    /// not 0, else the next fresh one, one above the last. The id returned is
    /// never 0.
    pub fn next_id(&mut self, replaces_id: u32) -> (id: u32)
        requires
            replaces_id != 0 || old(self).current() < u32::MAX,
        ensures
            id != 0,
            replaces_id != 0 ==> id == replaces_id && final(self).current() == old(self).current(),
            replaces_id == 0 ==> id == old(self).current() + 1 && final(self).current() == id,
    {
        if replaces_id != 0 {
            replaces_id
        } else {
            self.current_id = self.current_id + 1;
            self.current_id
        }
    }
}

/// The capabilities announced by `GetCapabilities`, in this order.
pub open spec fn spec_capabilities() -> Seq<Seq<char>> {
    seq![
        "action-icons"@,
        "actions"@,
        "body"@,
        "body-images"@,
        "icon-multi"@,
        "icon-static"@,
        "persistence"@,
        "sound"@,
    ]
}

/// The capabilities announced by `GetCapabilities`.
pub fn capabilities() -> (r: Vec<String>)
    ensures
        r@.map_values(|s: String| s@) == spec_capabilities(),
{
    let r = vec![
        "action-icons".to_string(),
        "actions".to_string(),
        "body".to_string(),
        "body-images".to_string(),
        "icon-multi".to_string(),
        "icon-static".to_string(),
        "persistence".to_string(),
        "sound".to_string(),
    ];
    assert(r@.map_values(|s: String| s@) =~= spec_capabilities());
    r
}

/// The answer to `GetServerInformation`: the given name, vendor and version,
/// and the version of the specification.
pub fn server_information(name: &str, vendor: &str, version: &str) -> (r: (
    String,
    String,
    String,
    String,
))
    ensures
        r.0@ == name@,
        r.1@ == vendor@,
        r.2@ == version@,
        r.3@ == NOTIFICATION_SPEC_VERSION@,
{
    (name.to_string(), vendor.to_string(), version.to_string(), NOTIFICATION_SPEC_VERSION.to_string())
}

/// The timeout a `Notify` caller asked for, in milliseconds; a negative
/// timeout (the specification's "server default") becomes 0, never expire.
pub open spec fn spec_notify_timeout(expire_timeout: i32) -> u32 {
    if expire_timeout < 0 {
        0
    } else {
        expire_timeout as u32
    }
}

/// The notification that `Notify` delivers: a general notification with the
/// caller's application, summary, body and actions; the icon and hints are
/// dropped.
pub fn notification_from_notify(
    app_name: String,
    summary: String,
    body: String,
    actions: Vec<String>,
    expire_timeout: i32,
) -> (r: Notification)
    ensures
        r == Notification::General(
            GeneralNotification {
                app_icon: None,
                app_name,
                summary,
                body,
                expire_timeout: spec_notify_timeout(expire_timeout),
                action: actions,
            },
        ),
        expire_timeout >= 0 ==> r->General_0.expire_timeout == expire_timeout,
        expire_timeout < 0 ==> r->General_0.expire_timeout == 0,
{
    let timeout: u32 = if expire_timeout < 0 {
        0
    } else {
        expire_timeout as u32
    };
    Notification::General(
        GeneralNotification {
            app_icon: None,
            app_name,
            summary,
            body,
            expire_timeout: timeout,
            action: actions,
        },
    )
}

/// What a `Notify` call gives when the id counter stands at `current`: the
/// id returned, the counter afterwards, and the notification queued. The
/// icon is taken and ignored.
pub open spec fn notify_result(
    current: u32,
    replaces_id: u32,
    app_name: String,
    app_icon: String,
    summary: String,
    body: String,
    actions: Vec<String>,
    expire_timeout: i32,
) -> (u32, u32, Notification) {
    let notification = Notification::General(
        GeneralNotification {
            app_icon: None,
            app_name,
            summary,
            body,
            expire_timeout: spec_notify_timeout(expire_timeout),
            action: actions,
        },
    );
    if replaces_id != 0 {
        (replaces_id, current, notification)
    } else {
        ((current + 1) as u32, (current + 1) as u32, notification)
    }
}

/// `Notify`: the id to return and the notification to queue. The caller's
/// icon is ignored (and its hints are never passed in).
pub fn notify(
    ids: &mut NotificationIds,
    app_name: String,
    replaces_id: u32,
    app_icon: String,
    summary: String,
    body: String,
    actions: Vec<String>,
    expire_timeout: i32,
) -> (r: (u32, Notification))
    requires
        replaces_id != 0 || old(ids).current() < u32::MAX,
    ensures
        ({
            let expected = notify_result(
                old(ids).current(),
                replaces_id,
                app_name,
                app_icon,
                summary,
                body,
                actions,
                expire_timeout,
            );
            &&& r.0 == expected.0
            &&& final(ids).current() == expected.1
            &&& r.1 == expected.2
        }),
        r.1 is General,
        r.1->General_0.app_name == app_name,
        r.1->General_0.summary == summary,
        r.1->General_0.body == body,
        r.1->General_0.action == actions,
        r.1->General_0.app_icon is None,
        expire_timeout >= 0 ==> r.1->General_0.expire_timeout == expire_timeout,
        expire_timeout < 0 ==> r.1->General_0.expire_timeout == 0,
        replaces_id != 0 ==> r.0 == replaces_id,
        replaces_id == 0 ==> r.0 == old(ids).current() + 1,
{
    let id = ids.next_id(replaces_id);
    (id, notification_from_notify(app_name, summary, body, actions, expire_timeout))
}

/// `Notify` ignores the caller's icon: two calls from the same counter whose
/// arguments differ only in the icon return the same id, leave the same
/// counter and queue the same notification, which carries no icon; the id
/// is never 0 (at the counter's maximum a fresh id cannot be made).
pub proof fn lemma_notify_ignores_icon(
    current: u32,
    replaces_id: u32,
    app_name: String,
    icon_a: String,
    icon_b: String,
    summary: String,
    body: String,
    actions: Vec<String>,
    expire_timeout: i32,
)
    requires
        replaces_id != 0 || current < u32::MAX,
    ensures
        notify_result(current, replaces_id, app_name, icon_a, summary, body, actions, expire_timeout)
            == notify_result(
            current,
            replaces_id,
            app_name,
            icon_b,
            summary,
            body,
            actions,
            expire_timeout,
        ),
        notify_result(
            current,
            replaces_id,
            app_name,
            icon_a,
            summary,
            body,
            actions,
            expire_timeout,
        ).2->General_0.app_icon is None,
        notify_result(
            current,
            replaces_id,
            app_name,
            icon_a,
            summary,
            body,
            actions,
            expire_timeout,
        ).0 != 0,
{
}

/// `Notify` queues a general notification made of the caller's own
/// arguments, each in its own place: the application name as the
/// application, the summary as the summary, the body as the body, the
/// actions as the actions, and the timeout when it is not negative (a
/// negative timeout becomes 0, never expire); it has no icon. It returns the
/// id being replaced when there is one, and otherwise the number one above
/// the counter, which the counter then holds.
pub proof fn lemma_notify_delivers_callers_fields(
    current: u32,
    replaces_id: u32,
    app_name: String,
    app_icon: String,
    summary: String,
    body: String,
    actions: Vec<String>,
    expire_timeout: i32,
)
    requires
        replaces_id != 0 || current < u32::MAX,
    ensures
        ({
            let r = notify_result(
                current,
                replaces_id,
                app_name,
                app_icon,
                summary,
                body,
                actions,
                expire_timeout,
            );
            &&& r.2 is General
            &&& r.2->General_0.app_name == app_name
            &&& r.2->General_0.summary == summary
            &&& r.2->General_0.body == body
            &&& r.2->General_0.action == actions
            &&& r.2->General_0.app_icon is None
            &&& expire_timeout >= 0 ==> r.2->General_0.expire_timeout == expire_timeout
            &&& expire_timeout < 0 ==> r.2->General_0.expire_timeout == 0
            &&& replaces_id != 0 ==> r.0 == replaces_id && r.1 == current
            &&& replaces_id == 0 ==> r.0 == current + 1 && r.1 == current + 1
        }),
{
}

} // verus!
