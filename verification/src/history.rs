use vstd::prelude::*;

verus! {

/// A completed download as the history keeps it.
#[derive(Debug, Clone)]
pub struct HistoryEntry {
    pub id: String,
    pub video_id: String,
    pub url: String,
    pub title: String,
    pub thumbnail: Option<String>,
    pub channel: Option<String>,
    pub resolution: String,
    pub container: String,
    pub file_path: String,
    pub downloaded_at: i64,
}

} // verus!
