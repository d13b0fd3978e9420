use vstd::prelude::*;

verus! {

/// A freedesktop-style notification: an application, a summary line, a body
/// and an optional timeout.
#[derive(Debug, Clone)]
pub struct GeneralNotification {
    /// Path of an icon; the daemon never fills it.
    pub app_icon: Option<String>,
    pub app_name: String,
    pub summary: String,
    pub body: String,
    /// Milliseconds until the notification leaves the screen; 0 is never.
    pub expire_timeout: u32,
    pub action: Vec<String>,
}

} // verus!
