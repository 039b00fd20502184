use vstd::prelude::*;

verus! {

/// Whether one item or a whole playlist is fetched.
#[derive(Debug, Clone, Copy, PartialEq, Eq, Structural)]
pub enum ContentType {
    Single,
    Playlist,
}

/// Video with its audio, or audio alone.
#[derive(Debug, Clone, Copy, PartialEq, Eq, Structural)]
pub enum Format {
    Video,
    Audio,
}

/// The largest vertical resolution asked for, or the best one available.
#[derive(Debug, Clone, Copy, PartialEq, Eq, Structural)]
pub enum Quality {
    P480,
    P720,
    P1080,
    P1440,
    P2160,
    Best,
}

/// The entries of the main menu.
#[derive(Debug, Clone, Copy, PartialEq, Eq, Structural)]
pub enum MainAction {
    Download,
    Config,
    History,
    Exit,
}

/// The menu-driven prompter; its prompts are drawn by the application.
pub struct UserInterface;

impl UserInterface {
    pub fn new() -> (r: Self) {
        UserInterface
    }
}

/// The text that stands for a quality in a format selection.
pub open spec fn height_text(q: Quality) -> Seq<char> {
    match q {
        Quality::P480 => "480"@,
        Quality::P720 => "720"@,
        Quality::P1080 => "1080"@,
        Quality::P1440 => "1440"@,
        Quality::P2160 => "2160"@,
        Quality::Best => "best"@,
    }
}

impl Quality {
    pub fn to_height(&self) -> (r: &'static str)
        ensures
            r@ == height_text(*self),
    {
        match self {
            Quality::P480 => "480",
            Quality::P720 => "720",
            Quality::P1080 => "1080",
            Quality::P1440 => "1440",
            Quality::P2160 => "2160",
            Quality::Best => "best",
        }
    }

    /// The quality at position `i` of the quality menu; 1080p past its end.
    pub fn from_index(i: usize) -> (r: Quality)
        ensures
            r == (if i == 0 {
                Quality::P480
            } else if i == 1 {
                Quality::P720
            } else if i == 3 {
                Quality::P1440
            } else if i == 4 {
                Quality::P2160
            } else if i == 5 {
                Quality::Best
            } else {
                Quality::P1080
            }),
    {
        match i {
            0 => Quality::P480,
            1 => Quality::P720,
            2 => Quality::P1080,
            3 => Quality::P1440,
            4 => Quality::P2160,
            5 => Quality::Best,
            _ => Quality::P1080,
        }
    }
}

impl MainAction {
    /// The action at position `i` of the main menu; leaving past its end.
    pub fn from_index(i: usize) -> (r: MainAction)
        ensures
            r == (if i == 0 {
                MainAction::Download
            } else if i == 1 {
                MainAction::Config
            } else if i == 2 {
                MainAction::History
            } else {
                MainAction::Exit
            }),
    {
        match i {
            0 => MainAction::Download,
            1 => MainAction::Config,
            2 => MainAction::History,
            _ => MainAction::Exit,
        }
    }
}

impl ContentType {
    /// The content type at position `i` of its menu; a single item past its end.
    pub fn from_index(i: usize) -> (r: ContentType)
        ensures
            r == (if i == 1 {
                ContentType::Playlist
            } else {
                ContentType::Single
            }),
    {
        match i {
            1 => ContentType::Playlist,
            _ => ContentType::Single,
        }
    }
}

impl Format {
    /// The format at position `i` of its menu; video past its end.
    pub fn from_index(i: usize) -> (r: Format)
        ensures
            r == (if i == 1 {
                Format::Audio
            } else {
                Format::Video
            }),
    {
        match i {
            1 => Format::Audio,
            _ => Format::Video,
        }
    }

    /// A quality is asked for exactly when video is.
    pub fn needs_quality(&self) -> (r: bool)
        ensures
            r == (*self == Format::Video),
    {
        match self {
            Format::Video => true,
            Format::Audio => false,
        }
    }
}

} // verus!
