use crownotify::dbus::custom::{chat_notification, general_notification, music_notification};
use crownotify::models::chat::ChatNotification;
use crownotify::models::Notification;
use crownotify::ui::app::namespace;
use crownotify::ui::painter::chat_meta_line;
use crownotify::ui::state::{update, Message, NotificationUIState};
use crownotify::dbus::custom::call_notification;
use crownotify::models::audio::AudioNotification;
use crownotify::ui::components::call::call_card_messages;
use crownotify::ui::painter::{paint_actions, HitAction};
use crownotify::ui::view::{card_texts, dnd_label, percentage_label};

fn general(summary: &str) -> Notification {
    general_notification("app".to_string(), summary.to_string(), String::new(), 0, vec![])
}

fn summaries(state: &NotificationUIState) -> Vec<String> {
    state
        .notifications
        .iter()
        .map(|n| match n {
            Notification::General(g) => g.summary.clone(),
            other => format!("{other:?}"),
        })
        .collect()
}

#[test]
fn default_state_is_empty_with_dnd_off() {
    let state = NotificationUIState::default();
    assert!(!state.do_not_disturb);
    assert!(state.notifications.is_empty());
}

#[test]
fn show_notification_appends() {
    let mut state = NotificationUIState::default();
    update(&mut state, Message::ShowNotification(general("one")));
    update(&mut state, Message::ShowNotification(general("two")));
    assert_eq!(summaries(&state), vec!["one", "two"]);
}

#[test]
fn do_not_disturb_suppresses_show_notification() {
    let mut state = NotificationUIState::default();
    update(&mut state, Message::ShowNotification(general("before")));
    update(&mut state, Message::ToggleDoNotDisturb);
    assert!(state.do_not_disturb);
    update(&mut state, Message::ShowNotification(general("hidden")));
    assert_eq!(summaries(&state), vec!["before"]);
    update(&mut state, Message::ToggleDoNotDisturb);
    assert!(!state.do_not_disturb);
    update(&mut state, Message::ShowNotification(general("after")));
    assert_eq!(summaries(&state), vec!["before", "after"]);
}

#[test]
fn other_messages_change_nothing() {
    let mut state = NotificationUIState::default();
    update(&mut state, Message::ShowNotification(general("x")));
    update(&mut state, Message::ShowAllNotifications);
    update(&mut state, Message::PickupCall("c".to_string()));
    update(&mut state, Message::DeclineCall("c".to_string()));
    assert!(!state.do_not_disturb);
    assert_eq!(summaries(&state), vec!["x"]);
}

#[test]
fn namespace_is_crownotify() {
    assert_eq!(namespace(), "crownotify");
}

#[test]
fn dnd_labels() {
    assert_eq!(dnd_label(true), "Do not Disturb: On");
    assert_eq!(dnd_label(false), "Do not Disturb: Off");
}

#[test]
fn percentage_labels() {
    assert_eq!(percentage_label(0), "0%");
    assert_eq!(percentage_label(7), "7%");
    assert_eq!(percentage_label(42), "42%");
    assert_eq!(percentage_label(100), "100%");
    assert_eq!(percentage_label(255), "255%");
    for p in 0..=255u8 {
        assert_eq!(percentage_label(p), format!("{}%", p));
    }
}

#[test]
fn chat_meta_line_joins_app_and_time() {
    let chat = ChatNotification {
        icon: None,
        title: "Ada".to_string(),
        app_name: "Signal".to_string(),
        body: "hi".to_string(),
        timestamp: "12:30".to_string(),
    };
    assert_eq!(chat_meta_line(&chat), "Signal · 12:30");
    match chat_notification("A".to_string(), "t".to_string(), "b".to_string(), String::new()) {
        Notification::Chat(c) => assert_eq!(chat_meta_line(&c), "A · "),
        other => panic!("unexpected {other:?}"),
    }
    let _ = music_notification(String::new(), 0);
}

#[test]
fn card_texts_per_kind() {
    assert_eq!(card_texts(&general("sum")), vec!["app".to_string(), "sum".to_string(), String::new()]);
    assert_eq!(
        card_texts(&music_notification("Song".to_string(), 42)),
        vec!["Now playing".to_string(), "Song".to_string(), "42%".to_string()]
    );
    assert_eq!(
        card_texts(&chat_notification("Chat".to_string(), "T".to_string(), "B".to_string(), "9:00".to_string())),
        vec!["Chat".to_string(), "9:00".to_string(), "T".to_string(), "B".to_string()]
    );
    assert_eq!(card_texts(&Notification::Audio(AudioNotification {})), vec!["Audio notification".to_string()]);
    let call = call_notification("c1".to_string(), "P".to_string(), String::new(), "Ada".to_string(), "+1".to_string());
    assert_eq!(card_texts(&call), vec!["Ada".to_string(), "+1".to_string()]);
}

#[test]
fn call_card_buttons_send_pickup_then_decline() {
    match call_notification("c9".to_string(), "P".to_string(), String::new(), "Ada".to_string(), "+1".to_string()) {
        Notification::Call(c) => {
            let (pickup, decline) = call_card_messages(&c);
            assert!(matches!(pickup, Message::PickupCall(id) if id == "c9"));
            assert!(matches!(decline, Message::DeclineCall(id) if id == "c9"));
        }
        other => panic!("unexpected {other:?}"),
    }
}

#[test]
fn paint_actions_join_cards_in_order() {
    let a = general("a");
    let call = call_notification("c1".to_string(), "P".to_string(), String::new(), "Ada".to_string(), "+1".to_string());
    let m = music_notification("m".to_string(), 1);
    let actions = paint_actions(&[&a, &call, &m]);
    assert_eq!(actions.len(), 4);
    assert!(matches!(&actions[0], HitAction::Dismiss(0)));
    assert!(matches!(&actions[1], HitAction::Decline(id) if id == "c1"));
    assert!(matches!(&actions[2], HitAction::Pickup(id) if id == "c1"));
    assert!(matches!(&actions[3], HitAction::Dismiss(2)));
    assert!(paint_actions(&[]).is_empty());
}
