use vstd::prelude::*;

use crate::models::call::CallNotification;
use crate::models::chat::ChatNotification;
use crate::models::general::GeneralNotification;
use crate::models::music::MusicNotification;
use crate::models::Notification;

verus! {

/// The notification that `SendGeneralNotification` delivers: the fields as
/// given, no icon.
pub fn general_notification(
    app_name: String,
    summary: String,
    body: String,
    expire_timeout: u32,
    actions: Vec<String>,
) -> (r: Notification)
    ensures
        r == Notification::General(
            GeneralNotification {
                app_icon: None,
                app_name,
                summary,
                body,
                expire_timeout,
                action: actions,
            },
        ),
{
    Notification::General(
        GeneralNotification { app_icon: None, app_name, summary, body, expire_timeout, action: actions },
    )
}

/// The notification that `SendCallNotification` delivers: the fields as
/// given, no icon.
pub fn call_notification(
    call_id: String,
    app_name: String,
    contact_avatar: String,
    contact_name: String,
    phone_number: String,
) -> (r: Notification)
    ensures
        r == Notification::Call(
            CallNotification {
                call_id,
                app_icon: None,
                app_name,
                contact_avatar,
                contact_name,
                phone_number,
            },
        ),
{
    Notification::Call(
        CallNotification {
            call_id,
            app_icon: None,
            app_name,
            contact_avatar,
            contact_name,
            phone_number,
        },
    )
}

/// The notification that `SendMusicNotification` delivers: the song and its
/// progress as given, no icon.
pub fn music_notification(song_name: String, percentage: u8) -> (r: Notification)
    ensures
        r == Notification::Music(MusicNotification { app_icon: None, song_name, percentage }),
{
    Notification::Music(MusicNotification { app_icon: None, song_name, percentage })
}

/// The notification that `SendChatNotification` delivers: the fields as
/// given, no icon.
pub fn chat_notification(app_name: String, title: String, body: String, timestamp: String) -> (r:
    Notification)
    ensures
        r == Notification::Chat(ChatNotification { icon: None, title, app_name, body, timestamp }),
{
    Notification::Chat(ChatNotification { icon: None, title, app_name, body, timestamp })
}

} // verus!
