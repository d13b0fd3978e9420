use std::collections::VecDeque;

use crownotify::dbus::custom::{
    call_notification, chat_notification, general_notification, music_notification,
};
use crownotify::dbus::freedesktop::{
    capabilities, notification_from_notify, notify, server_information, NotificationIds,
    NOTIFICATION_SPEC_VERSION,
};
use crownotify::dbus::push_notification;
use crownotify::models::Notification;

#[test]
fn capabilities_are_announced_in_order() {
    assert_eq!(
        capabilities(),
        vec![
            "action-icons".to_string(),
            "actions".to_string(),
            "body".to_string(),
            "body-images".to_string(),
            "icon-multi".to_string(),
            "icon-static".to_string(),
            "persistence".to_string(),
            "sound".to_string(),
        ]
    );
}

#[test]
fn server_information_reports_spec_version_1_2() {
    let (name, vendor, version, spec) = server_information("crownotify", "Crown-OS", "0.1.0");
    assert_eq!(name, "crownotify");
    assert_eq!(vendor, "Crown-OS");
    assert_eq!(version, "0.1.0");
    assert_eq!(spec, "1.2");
    assert_eq!(NOTIFICATION_SPEC_VERSION, "1.2");
}

#[test]
fn fresh_ids_count_up_from_one() {
    let mut ids = NotificationIds::new();
    assert_eq!(ids.current_id(), 0);
    assert_eq!(ids.next_id(0), 1);
    assert_eq!(ids.next_id(0), 2);
    assert_eq!(ids.next_id(0), 3);
    assert_eq!(ids.current_id(), 3);
}

#[test]
fn replacing_id_is_returned_and_uses_no_fresh_id() {
    let mut ids = NotificationIds::new();
    assert_eq!(ids.next_id(0), 1);
    assert_eq!(ids.next_id(42), 42);
    assert_eq!(ids.current_id(), 1);
    assert_eq!(ids.next_id(0), 2);
}

#[test]
fn notify_builds_a_general_notification() {
    let n = notification_from_notify(
        "mail".to_string(),
        "New mail".to_string(),
        "From Ada".to_string(),
        vec!["open".to_string(), "Open".to_string()],
        5000,
    );
    match n {
        Notification::General(g) => {
            assert!(g.app_icon.is_none());
            assert_eq!(g.app_name, "mail");
            assert_eq!(g.summary, "New mail");
            assert_eq!(g.body, "From Ada");
            assert_eq!(g.expire_timeout, 5000);
            assert_eq!(g.action, vec!["open".to_string(), "Open".to_string()]);
        }
        other => panic!("expected a general notification, got {other:?}"),
    }
}

#[test]
fn notify_negative_timeout_means_never_expire() {
    for timeout in [-1, i32::MIN] {
        let n = notification_from_notify(String::new(), String::new(), String::new(), vec![], timeout);
        match n {
            Notification::General(g) => assert_eq!(g.expire_timeout, 0),
            other => panic!("expected a general notification, got {other:?}"),
        }
    }
    let n = notification_from_notify(String::new(), String::new(), String::new(), vec![], i32::MAX);
    match n {
        Notification::General(g) => assert_eq!(g.expire_timeout, i32::MAX as u32),
        other => panic!("expected a general notification, got {other:?}"),
    }
}

#[test]
fn send_general_notification_keeps_fields() {
    let n = general_notification(
        "app".to_string(),
        "sum".to_string(),
        "body".to_string(),
        1500,
        vec!["a".to_string()],
    );
    match n {
        Notification::General(g) => {
            assert!(g.app_icon.is_none());
            assert_eq!((g.app_name.as_str(), g.summary.as_str(), g.body.as_str()), ("app", "sum", "body"));
            assert_eq!(g.expire_timeout, 1500);
            assert_eq!(g.action, vec!["a".to_string()]);
        }
        other => panic!("expected a general notification, got {other:?}"),
    }
}

#[test]
fn test_send_call_notification_delivers_all_fields() {
    let n = call_notification(
        "call_42".to_string(),
        "Phone".to_string(),
        "/tmp/avatar.png".to_string(),
        "Name Surname".to_string(),
        "+1-555-0100".to_string(),
    );
    match n {
        Notification::Call(c) => {
            assert_eq!(c.call_id, "call_42");
            assert!(c.app_icon.is_none());
            assert_eq!(c.app_name, "Phone");
            assert_eq!(c.contact_avatar, "/tmp/avatar.png");
            assert_eq!(c.contact_name, "Name Surname");
            assert_eq!(c.phone_number, "+1-555-0100");
        }
        other => panic!("expected a call notification, got {other:?}"),
    }
}

#[test]
fn send_music_and_chat_notifications_keep_fields() {
    match music_notification("Song".to_string(), 73) {
        Notification::Music(m) => {
            assert!(m.app_icon.is_none());
            assert_eq!(m.song_name, "Song");
            assert_eq!(m.percentage, 73);
        }
        other => panic!("expected a music notification, got {other:?}"),
    }
    match chat_notification("Chat".to_string(), "Ada".to_string(), "hi".to_string(), "12:00".to_string()) {
        Notification::Chat(c) => {
            assert!(c.icon.is_none());
            assert_eq!(c.app_name, "Chat");
            assert_eq!(c.title, "Ada");
            assert_eq!(c.body, "hi");
            assert_eq!(c.timestamp, "12:00");
        }
        other => panic!("expected a chat notification, got {other:?}"),
    }
}

#[test]
fn pushed_notifications_queue_in_order() {
    let mut inbox: VecDeque<Notification> = VecDeque::new();
    push_notification(&mut inbox, music_notification("first".to_string(), 1));
    push_notification(&mut inbox, music_notification("second".to_string(), 2));
    assert_eq!(inbox.len(), 2);
    match &inbox[0] {
        Notification::Music(m) => assert_eq!(m.song_name, "first"),
        other => panic!("unexpected {other:?}"),
    }
    match &inbox[1] {
        Notification::Music(m) => assert_eq!(m.song_name, "second"),
        other => panic!("unexpected {other:?}"),
    }
}

#[test]
fn notify_ignores_the_icon_and_numbers_fresh_calls() {
    let mut ids_a = NotificationIds::new();
    let mut ids_b = NotificationIds::new();
    let (id_a, n_a) = notify(&mut ids_a, "app".to_string(), 0, "icon-a".to_string(), "s".to_string(), "b".to_string(), vec![], -1);
    let (id_b, n_b) = notify(&mut ids_b, "app".to_string(), 0, "/other/icon".to_string(), "s".to_string(), "b".to_string(), vec![], -1);
    assert_eq!(id_a, 1);
    assert_eq!(id_b, 1);
    assert_eq!(format!("{n_a:?}"), format!("{n_b:?}"));
    match n_a {
        Notification::General(g) => {
            assert!(g.app_icon.is_none());
            assert_eq!(g.expire_timeout, 0);
        }
        other => panic!("expected a general notification, got {other:?}"),
    }
    let (id, _) = notify(&mut ids_a, "app".to_string(), 9, String::new(), String::new(), String::new(), vec![], 10);
    assert_eq!(id, 9);
    assert_eq!(ids_a.current_id(), 1);
}
