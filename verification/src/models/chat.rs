use vstd::prelude::*;

verus! {

/// A chat message.
#[derive(Debug, Clone)]
pub struct ChatNotification {
    /// Path of an icon; the daemon never fills it.
    pub icon: Option<String>,
    pub title: String,
    pub app_name: String,
    pub body: String,
    pub timestamp: String,
}

} // verus!
