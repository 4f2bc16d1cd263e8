//! Snapshots of a plugin's state, as reported to the user.
use vstd::prelude::*;

verus! {

/// What is on disk for a plugin right now.
#[derive(Debug, Clone, PartialEq, Eq)]
pub enum PluginStatus {
    Remote { installed: bool, commit: Option<String> },
    Local { exists: bool, path: String },
}

/// One commit that an update brought in.
#[derive(Debug, Clone, PartialEq, Eq)]
pub struct PluginChange {
    /// The first seven characters of the commit id.
    pub id: String,
    /// The full commit id.
    pub full_id: String,
    /// First line of the commit message, or a placeholder when it has none.
    pub summary: String,
    /// Commit time, in seconds since the Unix epoch.
    pub time: i64,
    /// A link to the commit on its host, where the host is known.
    pub url: Option<String>,
}

/// The result of updating one plugin.
#[derive(Debug, Clone, PartialEq, Eq)]
pub enum PluginUpdateStatus {
    Updated {
        from: Option<String>,
        to: String,
        changes: Vec<PluginChange>,
        range_url: Option<String>,
    },
    UpToDate { commit: String },
    Local { path: String },
}

/// The view of an optional string.
pub open spec fn opt_view(o: Option<String>) -> Option<Seq<char>> {
    match o {
        Some(s) => Some(s@),
        None => None,
    }
}

} // verus!
