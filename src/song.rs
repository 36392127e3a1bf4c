//! Tracks and observations of the player.

use vstd::prelude::*;

verus! {

/// A track as the player describes it. The file path is the track's identity.
#[derive(Debug)]
pub struct Song {
    pub file: String,
    pub title: Option<String>,
    pub artist: Option<String>,
    /// Length of the track in whole seconds, when the player knows it.
    pub duration: Option<u64>,
    /// Further tags in the order the player sent them; a name may repeat.
    pub tags: Vec<(String, String)>,
}

/// What a `Song` holds, as mathematical values.
pub struct SongView {
    pub file: Seq<char>,
    pub title: Option<Seq<char>>,
    pub artist: Option<Seq<char>>,
    pub duration: Option<u64>,
    pub tags: Seq<(Seq<char>, Seq<char>)>,
}

pub open spec fn text_view(s: Option<String>) -> Option<Seq<char>> {
    match s {
        Some(t) => Some(t@),
        None => None,
    }
}

pub open spec fn tag_view(t: (String, String)) -> (Seq<char>, Seq<char>) {
    (t.0@, t.1@)
}

pub open spec fn tags_view(tags: Seq<(String, String)>) -> Seq<(Seq<char>, Seq<char>)> {
    tags.map_values(|t: (String, String)| tag_view(t))
}

impl View for Song {
    type V = SongView;

    open spec fn view(&self) -> SongView {
        SongView {
            file: self.file@,
            title: text_view(self.title),
            artist: text_view(self.artist),
            duration: self.duration,
            tags: tags_view(self.tags@),
        }
    }
}

fn copy_text(s: &Option<String>) -> (r: Option<String>)
    ensures
        text_view(r) == text_view(*s),
{
    match s {
        Some(t) => Some(t.clone()),
        None => None,
    }
}

impl Song {
    /// A second `Song` with the same contents.
    pub fn duplicate(&self) -> (r: Song)
        ensures
            r@ == self@,
    {
        let mut tags: Vec<(String, String)> = Vec::new();
        let mut i: usize = 0;
        while i < self.tags.len()
            invariant
                i <= self.tags@.len(),
                tags@.len() == i,
                forall|j: int| 0 <= j < i ==> tag_view(#[trigger] tags@[j]) == tag_view(self.tags@[j]),
            decreases self.tags@.len() - i,
        {
            let name = self.tags[i].0.clone();
            let value = self.tags[i].1.clone();
            tags.push((name, value));
            i = i + 1;
        }
        let r = Song {
            file: self.file.clone(),
            title: copy_text(&self.title),
            artist: copy_text(&self.artist),
            duration: self.duration,
            tags,
        };
        assert(r@.tags =~= self@.tags);
        r
    }
}

/// One observation of the player: the track that is playing, its total length and the position
/// reached in it, both in milliseconds.
#[derive(Debug)]
pub struct SongStatus {
    pub song: Song,
    pub duration: u64,
    pub elapsed: u64,
}

pub struct StatusView {
    pub song: SongView,
    pub duration: u64,
    pub elapsed: u64,
}

impl View for SongStatus {
    type V = StatusView;

    open spec fn view(&self) -> StatusView {
        StatusView { song: self.song@, duration: self.duration, elapsed: self.elapsed }
    }
}

impl SongStatus {
    /// Builds an observation from what the player reported. There is none unless the position,
    /// the length and the current track are all known.
    pub fn from_player(elapsed: Option<u64>, duration: Option<u64>, song: Option<Song>) -> (r:
        Option<SongStatus>)
        ensures
            r is Some <==> (elapsed is Some && duration is Some && song is Some),
            r matches Some(s) ==> s.elapsed == elapsed.unwrap() && s.duration == duration.unwrap()
                && s.song == song.unwrap(),
    {
        match (elapsed, duration, song) {
            (Some(elapsed), Some(duration), Some(song)) => Some(SongStatus { song, duration, elapsed }),
            _ => None,
        }
    }
}

} // verus!
