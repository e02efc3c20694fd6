//! Typed request and response payloads of the UI-facing operations.
//!
//! The transport that carries them is an opaque RPC boundary handled by the
//! host; these are the plain shapes the two sides agree on.

use vstd::prelude::*;

verus! {

/// Request to download a remote file to disk.
#[derive(Clone, Debug, PartialEq, Eq)]
pub struct DownloadRequest {
    /// Source URL.
    pub url: String,
    /// File name to store the download under.
    pub filename: String,
    /// Directory the file is stored in; created when missing.
    pub save_dir: String,
    /// Optional referer header to present.
    pub referer: Option<String>,
    /// Optional origin header to present.
    pub origin: Option<String>,
}

/// Request to fetch a remote resource into memory.
#[derive(Clone, Debug, PartialEq, Eq)]
pub struct FetchDataRequest {
    /// Source URL.
    pub url: String,
    /// Optional referer header to present.
    pub referer: Option<String>,
    /// Optional origin header to present.
    pub origin: Option<String>,
}

/// Metadata reported for a single file.
#[derive(Clone, Copy, Debug, PartialEq, Eq)]
pub struct FileStat {
    /// Size in bytes.
    pub size: u64,
}

/// Result of extracting the audio track out of a local video file.
#[derive(Clone, Debug, PartialEq, Eq)]
pub struct ExtractAudioResult {
    /// Where the extracted audio was written.
    pub audio_path: String,
}

} // verus!
