use vstd::prelude::*;
use vstd::string::StringExecFns;

verus! {

/// The failures that the downloader reports.
#[derive(Debug, Clone, PartialEq)]
pub enum RytError {
    YtDlpNotFound,
    DownloadFailed,
    InvalidUrl,
    IoError(String),
}

/// The text shown for an error.
pub open spec fn error_message(e: RytError) -> Seq<char> {
    match e {
        RytError::YtDlpNotFound => "yt-dlp is not installed or not found in PATH"@,
        RytError::DownloadFailed => "Download failed"@,
        RytError::InvalidUrl => "Invalid URL format"@,
        RytError::IoError(m) => "IO error: "@ + m@,
    }
}

impl RytError {
    /// The text shown for this error.
    pub fn message(&self) -> (r: String)
        ensures
            r@ == error_message(*self),
    {
        match self {
            RytError::YtDlpNotFound => String::from_str("yt-dlp is not installed or not found in PATH"),
            RytError::DownloadFailed => String::from_str("Download failed"),
            RytError::InvalidUrl => String::from_str("Invalid URL format"),
            RytError::IoError(m) => String::from_str("IO error: ").concat(m.as_str()),
        }
    }
}

} // verus!
