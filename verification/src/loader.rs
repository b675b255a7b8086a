//! Loading: what a widget asks of the content service, and what becomes of
//! the answer.

use crate::config::MainConfig;
use crate::items::{
    FullChannel, FullPlayList, FullVideo, LoadError, MiniPlayList, MiniVideo, SearchSettings,
};
use crate::pages::channel::Channel;
use crate::pages::search::Search;
use vstd::prelude::*;

verus! {

/// What is asked of the content service.
#[derive(Clone, Debug, PartialEq, Eq)]
pub enum Fetch {
    Trending,
    Popular,
    History,
    Channel(String),
    ChannelPlaylists(String),
    ChannelVideos(String),
    Video(String),
    PlayList(String),
    Search { query: String, settings: SearchSettings, page_no: usize },
}

/// What the content service answered.
#[derive(Clone, Debug, PartialEq, Eq)]
pub enum Fetched {
    Channel(FullChannel),
    Playlists(Vec<MiniPlayList>),
    Videos(Vec<MiniVideo>),
    Video(FullVideo),
    PlayList(FullPlayList),
}

/// A thumbnail that is to be fetched: its address, and the id of the video,
/// playlist or channel that it shows.
#[derive(Clone, Debug, PartialEq, Eq)]
pub struct Thumbnail {
    pub url: String,
    pub id: String,
}

/// Whether `fetched` is of the kind that `fetch` asks for.
pub open spec fn answers(fetch: Fetch, fetched: Fetched) -> bool {
    match fetch {
        Fetch::Channel(_) => fetched is Channel,
        Fetch::ChannelPlaylists(_) => fetched is Playlists,
        Fetch::Video(_) => fetched is Video,
        Fetch::PlayList(_) => fetched is PlayList,
        _ => fetched is Videos,
    }
}

/// Why an answer is refused, if it is: the service failed, or the answer is
/// not of the kind that was asked for. Where nothing was asked, nothing is
/// refused.
pub open spec fn refusal(request: Option<Fetch>, response: Result<Fetched, String>) -> Option<
    LoadError,
> {
    match request {
        None => None,
        Some(fetch) => match response {
            Err(text) => Some(LoadError::Service(text)),
            Ok(fetched) => if answers(fetch, fetched) {
                None
            } else {
                Some(LoadError::Mismatch)
            },
        },
    }
}

/// What a widget says of an answer: the error where the answer is refused
/// and the widget stays as it was; the thumbnails to fetch where the widget
/// took the answer, or had asked nothing and stays as it was.
pub open spec fn load_outcome<T>(
    request: Option<Fetch>,
    response: Result<Fetched, String>,
    before: T,
    after: T,
    outcome: Result<Vec<Thumbnail>, LoadError>,
) -> bool {
    match refusal(request, response) {
        Some(error) => after == before && outcome == Err::<Vec<Thumbnail>, LoadError>(error),
        None => outcome.is_ok() && (request.is_none() ==> after == before && outcome.unwrap()@.len()
            == 0),
    }
}

/// The thumbnail of each video of a list.
pub open spec fn video_thumbnails(videos: Seq<MiniVideo>) -> Seq<Thumbnail> {
    Seq::new(
        videos.len(),
        |i: int| Thumbnail { url: videos[i].video_thumbnail, id: videos[i].video_id },
    )
}

/// The test of a playlist for a thumbnail.
pub open spec fn pictured() -> spec_fn(MiniPlayList) -> bool {
    |playlist: MiniPlayList| playlist.thumbnail.is_some()
}

/// The thumbnail of each playlist of a list that has one.
pub open spec fn playlist_thumbnails(playlists: Seq<MiniPlayList>) -> Seq<Thumbnail> {
    playlists.filter(pictured()).map_values(
        |playlist: MiniPlayList|
            Thumbnail { url: playlist.thumbnail.unwrap(), id: playlist.playlist_id },
    )
}

/// The thumbnail of a video in the size that the configuration picks, if
/// the video has one of that size.
pub open spec fn full_video_thumbnails(video: FullVideo, index: usize) -> Seq<Thumbnail> {
    if index < video.thumbnails@.len() {
        seq![Thumbnail { url: video.thumbnails@[index as int], id: video.video_id }]
    } else {
        Seq::empty()
    }
}

/// The thumbnails of the videos of a playlist, then that of the playlist
/// itself, if it has one.
pub open spec fn full_playlist_thumbnails(playlist: FullPlayList) -> Seq<Thumbnail> {
    video_thumbnails(playlist.videos@) + (match playlist.thumbnail {
        Some(url) => seq![Thumbnail { url, id: playlist.playlist_id }],
        None => Seq::empty(),
    })
}

/// Lists the thumbnail of each video.
pub fn thumbnails_of_videos(videos: &Vec<MiniVideo>) -> (list: Vec<Thumbnail>)
    ensures
        list@ == video_thumbnails(videos@),
{
    let mut list: Vec<Thumbnail> = Vec::new();
    let mut i: usize = 0;
    while i < videos.len()
        invariant
            i <= videos@.len(),
            list@.len() == i,
            forall|j: int| 0 <= j < i ==> list@[j] == video_thumbnails(videos@)[j],
        decreases videos.len() - i,
    {
        list.push(
            Thumbnail { url: videos[i].video_thumbnail.clone(), id: videos[i].video_id.clone() },
        );
        i = i + 1;
    }
    assert(list@ =~= video_thumbnails(videos@));
    list
}

/// Lists the thumbnail of each playlist that has one.
pub fn thumbnails_of_playlists(playlists: &Vec<MiniPlayList>) -> (list: Vec<Thumbnail>)
    ensures
        list@ == playlist_thumbnails(playlists@),
{
    let mut list: Vec<Thumbnail> = Vec::new();
    let mut i: usize = 0;
    assert(playlists@.take(0).filter(pictured()) =~= Seq::empty()) by {
        reveal(Seq::filter);
    }
    while i < playlists.len()
        invariant
            i <= playlists@.len(),
            list@ == playlist_thumbnails(playlists@.take(i as int)),
        decreases playlists.len() - i,
    {
        proof {
            let done = playlists@.take(i as int);
            assert(playlists@.take(i + 1) =~= done.push(playlists@[i as int]));
            done.lemma_filter_push(playlists@[i as int], pictured());
        }
        if let Some(url) = &playlists[i].thumbnail {
            list.push(Thumbnail { url: url.clone(), id: playlists[i].playlist_id.clone() });
        }
        assert(list@ =~= playlist_thumbnails(playlists@.take(i + 1)));
        i = i + 1;
    }
    assert(playlists@.take(i as int) =~= playlists@);
    list
}

/// Takes the answer for a video: the video, and the thumbnail that is to
/// be fetched for it where thumbnails are shown.
pub fn load_video(response: Result<Fetched, String>, mainconfig: &MainConfig) -> (loaded: Result<
    (FullVideo, Vec<Thumbnail>),
    LoadError,
>)
    ensures
        match response {
            Err(text) => loaded == Err::<(FullVideo, Vec<Thumbnail>), LoadError>(
                LoadError::Service(text),
            ),
            Ok(Fetched::Video(video)) => loaded matches Ok((item, thumbnails)) && item == video
                && thumbnails@ == if mainconfig.images.shown() {
                full_video_thumbnails(video, mainconfig.image_index)
            } else {
                Seq::empty()
            },
            Ok(_) => loaded == Err::<(FullVideo, Vec<Thumbnail>), LoadError>(LoadError::Mismatch),
        },
{
    match response {
        Err(text) => Err(LoadError::Service(text)),
        Ok(Fetched::Video(video)) => {
            let mut thumbnails: Vec<Thumbnail> = Vec::new();
            if mainconfig.images.display() && mainconfig.image_index < video.thumbnails.len() {
                thumbnails.push(
                    Thumbnail {
                        url: video.thumbnails[mainconfig.image_index].clone(),
                        id: video.video_id.clone(),
                    },
                );
            }
            assert(mainconfig.images.shown() ==> thumbnails@ =~= full_video_thumbnails(
                video,
                mainconfig.image_index,
            ));
            Ok((video, thumbnails))
        },
        Ok(_) => Err(LoadError::Mismatch),
    }
}

/// Takes the answer for a playlist: the playlist, and the thumbnails that
/// are to be fetched for it where thumbnails are shown.
pub fn load_playlist(response: Result<Fetched, String>, mainconfig: &MainConfig) -> (loaded: Result<
    (FullPlayList, Vec<Thumbnail>),
    LoadError,
>)
    ensures
        match response {
            Err(text) => loaded == Err::<(FullPlayList, Vec<Thumbnail>), LoadError>(
                LoadError::Service(text),
            ),
            Ok(Fetched::PlayList(playlist)) => loaded matches Ok((item, thumbnails)) && item
                == playlist && thumbnails@ == if mainconfig.images.shown() {
                full_playlist_thumbnails(playlist)
            } else {
                Seq::empty()
            },
            Ok(_) => loaded == Err::<(FullPlayList, Vec<Thumbnail>), LoadError>(
                LoadError::Mismatch,
            ),
        },
{
    match response {
        Err(text) => Err(LoadError::Service(text)),
        Ok(Fetched::PlayList(playlist)) => {
            let mut thumbnails: Vec<Thumbnail> = Vec::new();
            if mainconfig.images.display() {
                thumbnails = thumbnails_of_videos(&playlist.videos);
                if let Some(url) = &playlist.thumbnail {
                    thumbnails.push(
                        Thumbnail { url: url.clone(), id: playlist.playlist_id.clone() },
                    );
                }
                assert(thumbnails@ =~= full_playlist_thumbnails(playlist));
            }
            Ok((playlist, thumbnails))
        },
        Ok(_) => Err(LoadError::Mismatch),
    }
}

} // verus!
