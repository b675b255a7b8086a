//! The plain values that the content service hands over, and the small
//! session values that travel with them.

use crate::pages::channel::Channel;
use vstd::prelude::*;

verus! {

/// A video as it appears in a list.
#[derive(Clone, Debug, PartialEq, Eq)]
pub struct MiniVideo {
    pub video_id: String,
    pub title: String,
    pub video_thumbnail: String,
}

/// A playlist as it appears in a list.
#[derive(Clone, Debug, PartialEq, Eq)]
pub struct MiniPlayList {
    pub playlist_id: String,
    pub title: String,
    pub thumbnail: Option<String>,
}

/// A channel with its description.
#[derive(Clone, Debug, PartialEq, Eq)]
pub struct FullChannel {
    pub author_id: String,
    pub author: String,
    pub thumbnail: String,
    pub description: String,
}

/// A video with its description.
#[derive(Clone, Debug, PartialEq, Eq)]
pub struct FullVideo {
    pub video_id: String,
    pub title: String,
    /// The addresses of the video's thumbnails, one for each size.
    pub thumbnails: Vec<String>,
    pub author: String,
    pub description: String,
}

/// A playlist with its videos.
#[derive(Clone, Debug, PartialEq, Eq)]
pub struct FullPlayList {
    pub playlist_id: String,
    pub title: String,
    pub thumbnail: Option<String>,
    pub videos: Vec<MiniVideo>,
}

/// The videos that were watched, oldest first.
#[derive(Clone, Debug, PartialEq, Eq)]
pub struct WatchHistory(pub Vec<MiniVideo>);

/// The one message slot of a session.
#[derive(Clone, Debug, PartialEq, Eq)]
pub enum MessageText {
    Empty,
    Text(String),
}

impl View for MessageText {
    type V = Option<Seq<char>>;

    open spec fn view(&self) -> Option<Seq<char>> {
        match self {
            MessageText::Empty => None,
            MessageText::Text(text) => Some(text@),
        }
    }
}

/// By what a search is ordered.
#[derive(Clone, Copy, Debug, PartialEq, Eq, Structural)]
pub enum SearchOrder {
    Relevance,
    Rating,
    Date,
    Views,
}

/// What a search looks for.
#[derive(Clone, Copy, Debug, PartialEq, Eq, Structural)]
pub enum SearchKind {
    All,
    Video,
    PlayList,
    Channel,
}

/// The settings that a search is made with.
#[derive(Clone, Copy, Debug, PartialEq, Eq, Structural)]
pub struct SearchSettings {
    pub order: SearchOrder,
    pub kind: SearchKind,
}

impl SearchSettings {
    pub open spec fn initial() -> SearchSettings {
        SearchSettings { order: SearchOrder::Relevance, kind: SearchKind::All }
    }

    /// The settings that a session starts with.
    pub fn new() -> (settings: SearchSettings)
        ensures
            settings == SearchSettings::initial(),
    {
        SearchSettings { order: SearchOrder::Relevance, kind: SearchKind::All }
    }
}

/// Why a widget could not load what it shows.
#[derive(Clone, Debug, PartialEq, Eq)]
pub enum LoadError {
    /// The content service failed; the text is its description.
    Service(String),
    /// The answer is not of the kind that was asked for.
    Mismatch,
}

impl LoadError {
    /// The text that the message slot shows for the error.
    pub open spec fn text(self) -> Seq<char> {
        match self {
            LoadError::Service(description) => description@,
            LoadError::Mismatch => "The answer does not fit the request"@,
        }
    }

    /// Gives the text that the message slot shows for the error.
    pub fn message(self) -> (text: String)
        ensures
            text@ == self.text(),
    {
        match self {
            LoadError::Service(description) => description,
            LoadError::Mismatch => "The answer does not fit the request".to_string(),
        }
    }
}

} // verus!
