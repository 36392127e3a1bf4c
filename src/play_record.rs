//! Shaping a listen into the record that is stored.

use vstd::prelude::*;

use crate::listen::{RecordView, SongListenRecord};
use crate::song::{tags_view, text_view};
use crate::text::{ends_with, has_suffix, same_text};

verus! {

/// A listen as it is stored: when it began, the track's main metadata, and its other tags.
#[derive(Debug, Default)]
pub struct PlayRecord {
    /// Seconds since the Unix epoch.
    pub timestamp: i64,
    pub title: Option<String>,
    pub artist: Option<String>,
    pub album: Option<String>,
    pub album_artist: Option<String>,
    pub date: Option<String>,
    /// Each remaining tag name once, with all of its values in the order they came. The names
    /// are held as a vector of distinct names rather than as the keys of a `HashMap`: vstd
    /// describes a `HashMap`'s contents only for key types it models (integers and `bool`), and
    /// for `String` keys that model could only be assumed, so nothing about the map could be
    /// proved.
    pub other_tags: Vec<(String, Vec<String>)>,
    pub song_duration_seconds: Option<u64>,
}

pub struct PlayRecordView {
    pub timestamp: i64,
    pub title: Option<Seq<char>>,
    pub artist: Option<Seq<char>>,
    pub album: Option<Seq<char>>,
    pub album_artist: Option<Seq<char>>,
    pub date: Option<Seq<char>>,
    pub other_tags: Seq<(Seq<char>, Seq<Seq<char>>)>,
    pub song_duration_seconds: Option<u64>,
}

pub open spec fn texts_view(v: Vec<String>) -> Seq<Seq<char>> {
    v@.map_values(|s: String| s@)
}

pub open spec fn group_view(g: (String, Vec<String>)) -> (Seq<char>, Seq<Seq<char>>) {
    (g.0@, texts_view(g.1))
}

impl View for PlayRecord {
    type V = PlayRecordView;

    open spec fn view(&self) -> PlayRecordView {
        PlayRecordView {
            timestamp: self.timestamp,
            title: text_view(self.title),
            artist: text_view(self.artist),
            album: text_view(self.album),
            album_artist: text_view(self.album_artist),
            date: text_view(self.date),
            other_tags: self.other_tags@.map_values(|g: (String, Vec<String>)| group_view(g)),
            song_duration_seconds: self.song_duration_seconds,
        }
    }
}

/// The values of the tags called `name`, in the order they came.
pub open spec fn values_of(tags: Seq<(Seq<char>, Seq<char>)>, name: Seq<char>) -> Seq<Seq<char>>
    decreases tags.len(),
{
    if tags.len() == 0 {
        Seq::empty()
    } else {
        let n = tags.len() - 1;
        let earlier = values_of(tags.take(n), name);
        if tags[n].0 == name {
            earlier.push(tags[n].1)
        } else {
            earlier
        }
    }
}

/// The value of the last tag called `name`, if there is one.
pub open spec fn last_value(tags: Seq<(Seq<char>, Seq<char>)>, name: Seq<char>) -> Option<Seq<char>> {
    let values = values_of(tags, name);
    if values.len() == 0 {
        None
    } else {
        Some(values.last())
    }
}

/// Tags that are not kept among the other tags: bookkeeping the statistics have no use for,
/// the sort-order variants of names, and the names that have fields of their own.
#[verifier::opaque]
pub open spec fn dropped(name: Seq<char>) -> bool {
    ||| name == "duration"@
    ||| name == "Added"@
    ||| name == "Format"@
    ||| name == "Track"@
    ||| name == "Disc"@
    ||| has_suffix(name, "Sort"@)
    ||| name == "Title"@
    ||| name == "Artist"@
    ||| name == "Album"@
    ||| name == "AlbumArtist"@
    ||| name == "Date"@
}

/// `groups` holds each kept tag name of `tags` once, with all of its values.
pub open spec fn groups_tags(groups: Seq<(Seq<char>, Seq<Seq<char>>)>, tags: Seq<(Seq<char>, Seq<char>)>) -> bool {
    &&& forall|i: int, j: int| 0 <= i < j < groups.len() ==> groups[i].0 != groups[j].0
    &&& forall|i: int|
        0 <= i < groups.len() ==> !dropped(#[trigger] groups[i].0) && groups[i].1 == values_of(
            tags,
            groups[i].0,
        ) && groups[i].1.len() > 0
    &&& forall|k: int|
        0 <= k < tags.len() && !dropped(#[trigger] tags[k].0) ==> exists|i: int|
            0 <= i < groups.len() && #[trigger] groups[i].0 == tags[k].0
}

pub open spec fn first_known(a: Option<Seq<char>>, b: Option<Seq<char>>) -> Option<Seq<char>> {
    match a {
        Some(x) => Some(x),
        None => b,
    }
}

/// `play` is how the listen `listen` is stored. A title or artist that the player gave outside
/// the tags wins over one among them; of repeated tags the last one counts.
pub open spec fn stores(play: PlayRecordView, listen: RecordView) -> bool {
    let tags = listen.song.tags;
    &&& play.timestamp == listen.start
    &&& play.title == first_known(listen.song.title, last_value(tags, "Title"@))
    &&& play.artist == first_known(listen.song.artist, last_value(tags, "Artist"@))
    &&& play.album == last_value(tags, "Album"@)
    &&& play.album_artist == last_value(tags, "AlbumArtist"@)
    &&& play.date == last_value(tags, "Date"@)
    &&& groups_tags(play.other_tags, tags)
    &&& play.song_duration_seconds == listen.song.duration
}

proof fn lemma_values_of_take(tags: Seq<(Seq<char>, Seq<char>)>, name: Seq<char>, i: int)
    requires
        0 <= i < tags.len(),
    ensures
        values_of(tags.take(i + 1), name) == if tags[i].0 == name {
            values_of(tags.take(i), name).push(tags[i].1)
        } else {
            values_of(tags.take(i), name)
        },
{
    assert(tags.take(i + 1).take(i) =~= tags.take(i));
}

proof fn lemma_values_of_occurs(tags: Seq<(Seq<char>, Seq<char>)>, name: Seq<char>, k: int)
    requires
        0 <= k < tags.len(),
        tags[k].0 == name,
    ensures
        values_of(tags, name).len() > 0,
    decreases tags.len(),
{
    let n = tags.len() - 1;
    if k < n {
        lemma_values_of_occurs(tags.take(n), name, k);
    }
}
fn is_dropped(name: &str) -> (r: bool)
    ensures
        r == dropped(name@),
{
    reveal(dropped);
    same_text(name, "duration") || same_text(name, "Added") || same_text(name, "Format")
        || same_text(name, "Track") || same_text(name, "Disc") || ends_with(name, "Sort")
        || same_text(name, "Title") || same_text(name, "Artist") || same_text(name, "Album")
        || same_text(name, "AlbumArtist") || same_text(name, "Date")
}

/// The values of the tags called `name`, in the order they came.
fn values_named(tags: &Vec<(String, String)>, name: &str) -> (r: Vec<String>)
    ensures
        texts_view(r) == values_of(tags_view(tags@), name@),
{
    let ghost all = tags_view(tags@);
    let mut values: Vec<String> = Vec::new();
    let mut i: usize = 0;
    while i < tags.len()
        invariant
            i <= tags@.len(),
            all == tags_view(tags@),
            texts_view(values) == values_of(all.take(i as int), name@),
        decreases tags@.len() - i,
    {
        proof {
            lemma_values_of_take(all, name@, i as int);
        }
        if same_text(tags[i].0.as_str(), name) {
            let ghost before = values@;
            values.push(tags[i].1.clone());
            assert(texts_view(values) =~= before.map_values(|s: String| s@).push(all[i as int].1));
        }
        i = i + 1;
    }
    assert(all.take(tags@.len() as int) =~= all);
    values
}

/// The value of the last tag called `name`, if there is one.
fn last_named(tags: &Vec<(String, String)>, name: &str) -> (r: Option<String>)
    ensures
        text_view(r) == last_value(tags_view(tags@), name@),
{
    let ghost all = tags_view(tags@);
    let mut last: Option<String> = None;
    let mut i: usize = 0;
    while i < tags.len()
        invariant
            i <= tags@.len(),
            all == tags_view(tags@),
            text_view(last) == last_value(all.take(i as int), name@),
        decreases tags@.len() - i,
    {
        proof {
            lemma_values_of_take(all, name@, i as int);
        }
        if same_text(tags[i].0.as_str(), name) {
            last = Some(tags[i].1.clone());
        }
        i = i + 1;
    }
    assert(all.take(tags@.len() as int) =~= all);
    last
}

/// Where `name` stands in `names`, if it does.
fn position_of(names: &Vec<String>, name: &String) -> (r: Option<usize>)
    ensures
        match r {
            Some(a) => a < names@.len() && texts_view(*names)[a as int] == name@,
            None => forall|a: int| 0 <= a < names@.len() ==> #[trigger] texts_view(*names)[a] != name@,
        },
{
    let mut i: usize = 0;
    while i < names.len()
        invariant
            i <= names@.len(),
            forall|a: int| 0 <= a < i ==> #[trigger] texts_view(*names)[a] != name@,
        decreases names@.len() - i,
    {
        if names[i] == *name {
            return Some(i);
        }
        i = i + 1;
    }
    None
}

/// Gathers the kept tags by name: each name once, in the order of its first appearance, with
/// all of its values.
fn group_tags(tags: &Vec<(String, String)>) -> (r: Vec<(String, Vec<String>)>)
    ensures
        groups_tags(r@.map_values(|g: (String, Vec<String>)| group_view(g)), tags_view(tags@)),
{
    let ghost all = tags_view(tags@);
    let mut names: Vec<String> = Vec::new();
    // The names as text; for each name, a tag that carries it; for each kept tag, where its
    // name stands.
    let ghost mut seen: Seq<Seq<char>> = Seq::empty();
    let ghost mut first: Seq<int> = Seq::empty();
    let ghost mut slot: Seq<int> = Seq::empty();
    let mut i: usize = 0;
    while i < tags.len()
        invariant
            i <= tags@.len(),
            all == tags_view(tags@),
            seen == texts_view(names),
            first.len() == seen.len(),
            slot.len() == i,
            forall|a: int, b: int| 0 <= a < b < seen.len() ==> seen[a] != seen[b],
            forall|a: int| 0 <= a < seen.len() ==> !dropped(#[trigger] seen[a]),
            forall|a: int| 0 <= a < seen.len() ==> 0 <= #[trigger] first[a] < i,
            forall|a: int| 0 <= a < seen.len() ==> all[#[trigger] first[a]].0 == seen[a],
            forall|k: int|
                0 <= k < i && !dropped(#[trigger] all[k].0) ==> 0 <= slot[k] < seen.len()
                    && seen[slot[k]] == all[k].0,
        decreases tags@.len() - i,
    {
        let name = &tags[i].0;
        if is_dropped(name.as_str()) {
            proof {
                slot = slot.push(0);
            }
        } else {
            match position_of(&names, name) {
                Some(a) => {
                    proof {
                        slot = slot.push(a as int);
                    }
                },
                None => {
                    names.push(name.clone());
                    proof {
                        seen = seen.push(all[i as int].0);
                        slot = slot.push(seen.len() - 1);
                        first = first.push(i as int);
                    }
                    assert(seen =~= texts_view(names));
                },
            }
        }
        i = i + 1;
    }
    let mut groups: Vec<(String, Vec<String>)> = Vec::new();
    let mut j: usize = 0;
    while j < names.len()
        invariant
            j <= names@.len(),
            all == tags_view(tags@),
            groups@.len() == j,
            forall|a: int|
                0 <= a < j ==> #[trigger] group_view(groups@[a]) == (
                    texts_view(names)[a],
                    values_of(all, texts_view(names)[a]),
                ),
        decreases names@.len() - j,
    {
        let values = values_named(tags, names[j].as_str());
        groups.push((names[j].clone(), values));
        j = j + 1;
    }
    let ghost view = groups@.map_values(|g: (String, Vec<String>)| group_view(g));
    assert forall|a: int| 0 <= a < view.len() implies !dropped(#[trigger] view[a].0) && view[a].1
        == values_of(all, view[a].0) && view[a].1.len() > 0 by {
        assert(group_view(groups@[a]) == view[a]);
        assert(!dropped(seen[a]));
        lemma_values_of_occurs(all, seen[a], first[a]);
    }
    assert forall|a: int, b: int| 0 <= a < b < view.len() implies view[a].0 != view[b].0 by {
        assert(group_view(groups@[a]) == view[a]);
        assert(group_view(groups@[b]) == view[b]);
    }
    assert forall|k: int| 0 <= k < all.len() && !dropped(#[trigger] all[k].0) implies exists|
        a: int,
    | 0 <= a < view.len() && #[trigger] view[a].0 == all[k].0 by {
        let a = slot[k];
        assert(group_view(groups@[a]) == view[a]);
        assert(view[a].0 == all[k].0);
    }
    groups
}


impl PlayRecord {
    /// How the listen `record` is stored: the player's own title and artist where it gave them,
    /// the last tag of each main name otherwise, and the other kept tags gathered by name.
    pub fn from_listen(record: SongListenRecord) -> (r: PlayRecord)
        ensures
            stores(r@, record@),
    {
        let song = record.song;
        let other_tags = group_tags(&song.tags);

        let tag_title = last_named(&song.tags, "Title");
        let tag_artist = last_named(&song.tags, "Artist");
        let album = last_named(&song.tags, "Album");
        let album_artist = last_named(&song.tags, "AlbumArtist");
        let date = last_named(&song.tags, "Date");

        let title = match song.title {
            Some(t) => Some(t),
            None => tag_title,
        };
        let artist = match song.artist {
            Some(a) => Some(a),
            None => tag_artist,
        };
        PlayRecord {
            timestamp: record.start,
            title,
            artist,
            album,
            album_artist,
            date,
            other_tags,
            song_duration_seconds: song.duration,
        }
    }
}

impl From<SongListenRecord> for PlayRecord {
    fn from(record: SongListenRecord) -> (r: PlayRecord)
        ensures
            stores(r@, record@),
    {
        PlayRecord::from_listen(record)
    }
}

// `from` states its result over views in its own `ensures`; a `PlayRecord`, which holds
// `String`s, cannot be written as a spec value, so no `from_spec` is claimed.
impl vstd::std_specs::convert::FromSpecImpl<SongListenRecord> for PlayRecord {
    open spec fn obeys_from_spec() -> bool {
        false
    }

    open spec fn from_spec(v: SongListenRecord) -> PlayRecord {
        arbitrary()
    }
}

} // verus!
