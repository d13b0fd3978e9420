use vstd::prelude::*;

verus! {

/// The song that is playing and how far it has got.
#[derive(Debug, Clone)]
pub struct MusicNotification {
    /// Path of an icon; the daemon never fills it.
    pub app_icon: Option<String>,
    pub song_name: String,
    pub percentage: u8,
}

} // verus!
