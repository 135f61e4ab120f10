//! The library listing: the songs of the daemon's database grouped by
//! album, with an artist and two MusicBrainz identifiers estimated for each
//! album from the tags of its songs.
//!
//! The estimate is the first match: songs are scanned in the daemon's
//! order, the tags of a song in the order of the record, and the first
//! value found for a tag name stands for the album. A later value is
//! ignored even where it differs.

use crate::daemon::{DaemonSong, DaemonSongView};
use crate::song::{shape_songs, shaped_songs, Song, SongView};
use vstd::prelude::*;
use vstd::string::StringExecFns;

verus! {

/// The tag that names the artist of an album.
pub open spec fn album_artist_tag() -> Seq<char> {
    "AlbumArtist"@
}

/// The tag that holds the MusicBrainz id of the album's artist.
pub open spec fn artist_id_tag() -> Seq<char> {
    "MUSICBRAINZ_ALBUMARTISTID"@
}

/// The tag that holds the MusicBrainz id of the album.
pub open spec fn album_id_tag() -> Seq<char> {
    "MUSICBRAINZ_ALBUMID"@
}

/// The value of the first pair of `tags` whose name is `key`.
pub open spec fn first_tag(tags: Seq<(Seq<char>, Seq<char>)>, key: Seq<char>) -> Option<
    Seq<char>,
>
    decreases tags.len(),
{
    if tags.len() == 0 {
        None
    } else if tags[0].0 == key {
        Some(tags[0].1)
    } else {
        first_tag(tags.drop_first(), key)
    }
}

/// The value that the first song with a tag `key` gives for it.
pub open spec fn first_in_songs(songs: Seq<SongView>, key: Seq<char>) -> Option<Seq<char>>
    decreases songs.len(),
{
    if songs.len() == 0 {
        None
    } else if first_tag(songs[0].tags, key) is Some {
        first_tag(songs[0].tags, key)
    } else {
        first_in_songs(songs.drop_first(), key)
    }
}

/// `first_tag` finds the pair at `at` when no earlier pair has the name.
pub proof fn lemma_first_tag_at(tags: Seq<(Seq<char>, Seq<char>)>, key: Seq<char>, at: int)
    requires
        0 <= at < tags.len(),
        tags[at].0 == key,
        forall|k: int| 0 <= k < at ==> tags[k].0 != key,
    ensures
        first_tag(tags, key) == Some(tags[at].1),
    decreases at,
{
    if at > 0 {
        let rest = tags.drop_first();
        assert(forall|k: int| 0 <= k < at - 1 ==> rest[k] == tags[k + 1]);
        lemma_first_tag_at(rest, key, at - 1);
    }
}

/// `first_tag` finds nothing exactly when no pair has the name.
pub proof fn lemma_first_tag_none(tags: Seq<(Seq<char>, Seq<char>)>, key: Seq<char>)
    ensures
        first_tag(tags, key) is None <==> forall|k: int| 0 <= k < tags.len() ==> tags[k].0 != key,
    decreases tags.len(),
{
    if tags.len() > 0 {
        let rest = tags.drop_first();
        lemma_first_tag_none(rest, key);
        if tags[0].0 != key {
            if first_tag(rest, key) is None {
                assert forall|k: int| 0 <= k < tags.len() implies tags[k].0 != key by {
                    if k > 0 {
                        assert(rest[k - 1] == tags[k]);
                    }
                }
            } else {
                let k = choose|k: int| 0 <= k < rest.len() && rest[k].0 == key;
                assert(tags[k + 1] == rest[k]);
            }
        }
    }
}

/// First match wins across songs: where song `at` has a tag `key` and no
/// song before it has one, the album gets the value that song `at` gives,
/// whatever the songs after it say.
pub proof fn lemma_first_song_wins(songs: Seq<SongView>, key: Seq<char>, at: int)
    requires
        0 <= at < songs.len(),
        first_tag(songs[at].tags, key) is Some,
        forall|k: int| 0 <= k < at ==> first_tag(songs[k].tags, key) is None,
    ensures
        first_in_songs(songs, key) == first_tag(songs[at].tags, key),
    decreases at,
{
    if at > 0 {
        let rest = songs.drop_first();
        assert(forall|k: int| 0 <= k < at - 1 ==> rest[k] == songs[k + 1]);
        lemma_first_song_wins(rest, key, at - 1);
    }
}

/// No value is estimated exactly when no song has a tag `key`.
pub proof fn lemma_no_song_has_tag(songs: Seq<SongView>, key: Seq<char>)
    ensures
        first_in_songs(songs, key) is None <==> forall|k: int|
            0 <= k < songs.len() ==> first_tag(songs[k].tags, key) is None,
    decreases songs.len(),
{
    if songs.len() > 0 {
        let rest = songs.drop_first();
        lemma_no_song_has_tag(rest, key);
        if first_tag(songs[0].tags, key) is None {
            if first_in_songs(rest, key) is None {
                assert forall|k: int| 0 <= k < songs.len() implies first_tag(
                    songs[k].tags,
                    key,
                ) is None by {
                    if k > 0 {
                        assert(rest[k - 1] == songs[k]);
                    }
                }
            } else {
                let k = choose|k: int|
                    0 <= k < rest.len() && first_tag(rest[k].tags, key) is Some;
                assert(songs[k + 1] == rest[k]);
            }
        }
    }
}

/// Of two songs of one album that both carry a tag `key`, the value of the
/// song that comes first stands for the album, also where the two differ.
pub proof fn lemma_conflict_first_wins(first: SongView, second: SongView, key: Seq<char>)
    requires
        first_tag(first.tags, key) is Some,
        first_tag(second.tags, key) is Some,
    ensures
        first_in_songs(seq![first, second], key) == first_tag(first.tags, key),
{
    lemma_first_song_wins(seq![first, second], key, 0);
}

/// The value of the first tag named `key`, if the song has one.
pub fn find_tag(tags: &Vec<(String, String)>, key: &String) -> (found: Option<String>)
    ensures
        found.deep_view() == first_tag(tags.deep_view(), key@),
{
    let ghost all = tags.deep_view();
    assert(all.subrange(0, all.len() as int) =~= all);
    let mut i: usize = 0;
    while i < tags.len()
        invariant
            i <= tags.len(),
            all == tags.deep_view(),
            first_tag(all, key@) == first_tag(all.subrange(i as int, all.len() as int), key@),
        decreases tags.len() - i,
    {
        let ghost rest = all.subrange(i as int, all.len() as int);
        assert(rest[0] == all[i as int]);
        if tags[i].0 == *key {
            return Some(tags[i].1.clone());
        }
        assert(rest.drop_first() =~= all.subrange(i + 1, all.len() as int));
        i += 1;
    }
    assert(all.subrange(i as int, all.len() as int).len() == 0);
    None
}

/// The value that the first song with a tag `key` gives for it.
pub fn find_in_songs(songs: &Vec<Song>, key: &String) -> (found: Option<String>)
    ensures
        found.deep_view() == first_in_songs(songs.deep_view(), key@),
{
    let ghost all = songs.deep_view();
    assert(all.subrange(0, all.len() as int) =~= all);
    let mut i: usize = 0;
    while i < songs.len()
        invariant
            i <= songs.len(),
            all == songs.deep_view(),
            first_in_songs(all, key@) == first_in_songs(
                all.subrange(i as int, all.len() as int),
                key@,
            ),
        decreases songs.len() - i,
    {
        let ghost rest = all.subrange(i as int, all.len() as int);
        assert(rest[0] == all[i as int]);
        let found = find_tag(&songs[i].tags, key);
        if found.is_some() {
            return found;
        }
        assert(rest.drop_first() =~= all.subrange(i + 1, all.len() as int));
        i += 1;
    }
    assert(all.subrange(i as int, all.len() as int).len() == 0);
    None
}

/// One album of the library.
///
/// Artist and identifiers are estimated from the songs of the album.
#[derive(Clone, Debug, PartialEq)]
pub struct LibraryAlbum {
    pub name: String,
    pub artist: Option<String>,
    pub musicbrainz_artistid: Option<String>,
    pub musicbrainz_albumid: Option<String>,
    pub songs: Vec<Song>,
}

pub struct LibraryAlbumView {
    pub name: Seq<char>,
    pub artist: Option<Seq<char>>,
    pub musicbrainz_artistid: Option<Seq<char>>,
    pub musicbrainz_albumid: Option<Seq<char>>,
    pub songs: Seq<SongView>,
}

impl DeepView for LibraryAlbum {
    type V = LibraryAlbumView;

    open spec fn deep_view(&self) -> LibraryAlbumView {
        LibraryAlbumView {
            name: self.name@,
            artist: self.artist.deep_view(),
            musicbrainz_artistid: self.musicbrainz_artistid.deep_view(),
            musicbrainz_albumid: self.musicbrainz_albumid.deep_view(),
            songs: self.songs.deep_view(),
        }
    }
}

impl View for LibraryAlbum {
    type V = LibraryAlbumView;

    open spec fn view(&self) -> LibraryAlbumView {
        self.deep_view()
    }
}

/// The album that the daemon's records for one album name add up to: the
/// songs in the daemon's order, and for each estimated field the first
/// match among them.
pub open spec fn album_of(name: Seq<char>, raws: Seq<DaemonSongView>) -> LibraryAlbumView {
    let songs = shaped_songs(raws);
    LibraryAlbumView {
        name,
        artist: first_in_songs(songs, album_artist_tag()),
        musicbrainz_artistid: first_in_songs(songs, artist_id_tag()),
        musicbrainz_albumid: first_in_songs(songs, album_id_tag()),
        songs,
    }
}

/// The artist of an album is the `AlbumArtist` value of the first of its
/// songs that has one: where record `at` carries the tag and no record
/// before it does, the album's artist is the first such value of record
/// `at`, also where later records name another artist.
pub proof fn lemma_album_artist_first_wins(name: Seq<char>, raws: Seq<DaemonSongView>, at: int)
    requires
        0 <= at < raws.len(),
        first_tag(raws[at].tags, album_artist_tag()) is Some,
        forall|k: int| 0 <= k < at ==> first_tag(raws[k].tags, album_artist_tag()) is None,
    ensures
        album_of(name, raws).artist == first_tag(raws[at].tags, album_artist_tag()),
{
    lemma_first_song_wins(shaped_songs(raws), album_artist_tag(), at);
}

impl LibraryAlbum {
    /// Builds the album for `name` from the records that the daemon found
    /// for it.
    pub fn from_songs(name: String, raws: Vec<DaemonSong>) -> (album: LibraryAlbum)
        ensures
            album@ == album_of(name@, raws.deep_view()),
    {
        let songs = shape_songs(raws);
        let artist = find_in_songs(&songs, &String::from_str("AlbumArtist"));
        let musicbrainz_artistid = find_in_songs(
            &songs,
            &String::from_str("MUSICBRAINZ_ALBUMARTISTID"),
        );
        let musicbrainz_albumid = find_in_songs(&songs, &String::from_str("MUSICBRAINZ_ALBUMID"));
        LibraryAlbum { name, artist, musicbrainz_artistid, musicbrainz_albumid, songs }
    }
}

/// The whole library listing.
#[derive(Clone, Debug, PartialEq)]
pub struct Library {
    /// A fixed marker that the front-end's decoder expects.
    pub test: String,
    pub albums: Vec<LibraryAlbum>,
}

pub struct LibraryView {
    pub test: Seq<char>,
    pub albums: Seq<LibraryAlbumView>,
}

impl DeepView for Library {
    type V = LibraryView;

    open spec fn deep_view(&self) -> LibraryView {
        LibraryView { test: self.test@, albums: self.albums.deep_view() }
    }
}

impl View for Library {
    type V = LibraryView;

    open spec fn view(&self) -> LibraryView {
        self.deep_view()
    }
}

/// The listing that holds `albums` in their order.
pub open spec fn library_of(albums: Seq<LibraryAlbumView>) -> LibraryView {
    LibraryView { test: "abc"@, albums }
}

impl Library {
    /// The listing that holds `albums` in their order.
    pub fn from_albums(albums: Vec<LibraryAlbum>) -> (library: Library)
        ensures
            library@ == library_of(albums.deep_view()),
    {
        Library { test: String::from_str("abc"), albums }
    }
}

} // verus!
