use jukebox_api::daemon::{
    DaemonFault, DaemonSong, DaemonState, DaemonStatus, QueuePlace, SongRange, Span,
};
use jukebox_api::envelope::{result, ConnectionResultWrapper};
use jukebox_api::error::{MpdError, MpdResult};
use jukebox_api::library::{find_in_songs, find_tag, Library, LibraryAlbum};
use jukebox_api::song::{seconds_of, shape_songs, Queue, QueueSong, Song};
use jukebox_api::status::{shape_volume, MpdSongShot, MpdState, MpdStatus};

fn text(s: &str) -> String {
    s.to_string()
}

fn record(file: &str, tags: &[(&str, &str)]) -> DaemonSong {
    DaemonSong {
        file: text(file),
        name: None,
        title: None,
        last_mod: None,
        artist: None,
        duration: None,
        place: None,
        range: None,
        tags: tags.iter().map(|(k, v)| (text(k), text(v))).collect(),
    }
}

fn stopped() -> DaemonStatus {
    DaemonStatus {
        volume: -1,
        repeat: false,
        random: false,
        single: false,
        consume: false,
        state: DaemonState::Stop,
        song: None,
        elapsed: None,
        duration: None,
    }
}

#[test]
fn io_failure_is_a_connection_error() {
    assert_eq!(MpdError::from(DaemonFault::Io), MpdError::MpdErrorConnection);
}

#[test]
fn every_other_failure_is_a_communication_error() {
    assert_eq!(MpdError::from(DaemonFault::Parse), MpdError::MpdErrorCommunication);
    assert_eq!(MpdError::from(DaemonFault::Proto), MpdError::MpdErrorCommunication);
    assert_eq!(MpdError::from(DaemonFault::Server), MpdError::MpdErrorCommunication);
}

#[test]
fn no_failure_is_an_api_error() {
    for fault in [DaemonFault::Io, DaemonFault::Parse, DaemonFault::Proto, DaemonFault::Server] {
        assert_ne!(MpdError::from(fault), MpdError::MpdErrorApi);
    }
}

#[test]
fn song_shaping_copies_and_defaults() {
    let raw = DaemonSong {
        file: text("music/a.mp3"),
        name: None,
        title: Some(text("A")),
        last_mod: Some(text("2020-01-01T00:00:00Z")),
        artist: Some(text("Someone")),
        duration: Some(Span { secs: 187, nanos: 900_000_000 }),
        place: Some(QueuePlace { id: 7, pos: 2, prio: 0 }),
        range: Some(SongRange { start: Span { secs: 1, nanos: 0 }, end: None }),
        tags: vec![(text("Album"), text("First"))],
    };
    let song = Song::from_song(raw);
    assert_eq!(
        song,
        Song {
            file: text("music/a.mp3"),
            name: None,
            title: Some(text("A")),
            artist: Some(text("Someone")),
            duration: Some(187),
            tags: vec![(text("Album"), text("First"))],
            queue_id: Some(7),
        }
    );
}

#[test]
fn song_shaping_of_a_bare_record() {
    let song = Song::from_song(record("x.flac", &[]));
    assert_eq!(
        song,
        Song {
            file: text("x.flac"),
            name: None,
            title: None,
            artist: None,
            duration: None,
            tags: vec![],
            queue_id: None,
        }
    );
}

#[test]
fn stream_name_is_kept() {
    let mut raw = record("http://radio", &[]);
    raw.name = Some(text("Radio One"));
    assert_eq!(Song::from_song(raw).name, Some(text("Radio One")));
}

#[test]
fn durations_are_cut_to_whole_seconds() {
    assert_eq!(seconds_of(None), None);
    assert_eq!(seconds_of(Some(Span { secs: 0, nanos: 999_999_999 })), Some(0));
    assert_eq!(seconds_of(Some(Span { secs: 61, nanos: 500_000_000 })), Some(61));
    assert_eq!(Span { secs: 9, nanos: 1 }.whole_seconds(), 9);
}

#[test]
fn minimal_song_names_the_file_only() {
    let song = DaemonSong::from_path(text("music/a.mp3"));
    assert_eq!(song, record("music/a.mp3", &[]));
}

#[test]
fn minimal_song_takes_the_path_verbatim() {
    let song = DaemonSong::from_path(text("  ../odd path\n"));
    assert_eq!(song.file, "  ../odd path\n");
    let song = DaemonSong::from_path(String::new());
    assert_eq!(song.file, "");
}

#[test]
fn lookup_that_resolves_gives_the_song() {
    let shaped = Song::from_playlist_id(Some(record("a.mp3", &[("Album", "X")])));
    assert_eq!(shaped, Ok(Song::from_song(record("a.mp3", &[("Album", "X")]))));
}

#[test]
fn lookup_that_does_not_resolve_is_a_communication_error() {
    assert_eq!(Song::from_playlist_id(None), Err(MpdError::MpdErrorCommunication));
}

#[test]
fn queue_song_takes_id_and_position_from_the_slot() {
    let mut raw = record("a.mp3", &[]);
    raw.place = Some(QueuePlace { id: 99, pos: 98, prio: 1 });
    let shaped = QueueSong::from_place(Some(raw.clone()), QueuePlace { id: 4, pos: 0, prio: 0 });
    assert_eq!(
        shaped,
        Ok(QueueSong { queue_id: 4, queue_pos: 0, song: Song::from_song(raw) })
    );
}

#[test]
fn queue_song_of_an_unresolved_slot_is_a_communication_error() {
    let shaped = QueueSong::from_place(None, QueuePlace { id: 4, pos: 0, prio: 0 });
    assert_eq!(shaped, Err(MpdError::MpdErrorCommunication));
}

#[test]
fn songs_are_shaped_in_order() {
    let shaped = shape_songs(vec![record("1", &[]), record("2", &[]), record("3", &[])]);
    let files: Vec<&str> = shaped.iter().map(|s| s.file.as_str()).collect();
    assert_eq!(files, vec!["1", "2", "3"]);
    assert_eq!(shape_songs(vec![]), vec![]);
}

#[test]
fn queue_keeps_the_daemon_order() {
    let queue = Queue::from_songs(vec![record("b", &[]), record("a", &[])]);
    assert_eq!(queue, Queue(vec![Song::from_song(record("b", &[])), Song::from_song(record("a", &[]))]));
    assert_eq!(Queue::from_songs(vec![]), Queue(vec![]));
}

#[test]
fn shot_mode_table() {
    assert_eq!(MpdSongShot::from_flags(false, false), MpdSongShot::Default);
    assert_eq!(MpdSongShot::from_flags(true, false), MpdSongShot::Single);
    assert_eq!(MpdSongShot::from_flags(true, true), MpdSongShot::SingleRepeat);
    assert_eq!(MpdSongShot::from_flags(false, true), MpdSongShot::QueueRepeat);
}

#[test]
fn shot_mode_from_a_status_record() {
    for (single, repeat, expected) in [
        (false, false, MpdSongShot::Default),
        (true, false, MpdSongShot::Single),
        (true, true, MpdSongShot::SingleRepeat),
        (false, true, MpdSongShot::QueueRepeat),
    ] {
        let mut raw = stopped();
        raw.single = single;
        raw.repeat = repeat;
        assert_eq!(MpdSongShot::from(raw), expected);
    }
}

#[test]
fn state_mapping() {
    assert_eq!(MpdState::from(DaemonState::Stop), MpdState::Stop);
    assert_eq!(MpdState::from(DaemonState::Play), MpdState::Play);
    assert_eq!(MpdState::from(DaemonState::Pause), MpdState::Pause);
}

#[test]
fn volume_below_zero_is_absent() {
    assert_eq!(shape_volume(-1), None);
    assert_eq!(shape_volume(-2), None);
    assert_eq!(shape_volume(i8::MIN), None);
}

#[test]
fn volume_from_zero_is_kept() {
    assert_eq!(shape_volume(0), Some(0));
    assert_eq!(shape_volume(37), Some(37));
    assert_eq!(shape_volume(100), Some(100));
    assert_eq!(shape_volume(i8::MAX), Some(i8::MAX));
}

#[test]
fn volume_rule_for_every_value() {
    for raw in i8::MIN..=i8::MAX {
        let shaped = shape_volume(raw);
        assert_eq!(shaped.is_none(), raw <= -1);
        if raw > -1 {
            assert_eq!(shaped, Some(raw));
        }
    }
}

#[test]
fn status_of_a_stopped_daemon_without_song() {
    let shaped = MpdStatus::get(stopped(), None);
    assert_eq!(
        shaped,
        Ok(MpdStatus {
            state: MpdState::Stop,
            current_song: None,
            current_elapsed: None,
            current_duration: None,
            volume: None,
            shot: MpdSongShot::Default,
            random: false,
            consume: false,
        })
    );
}

#[test]
fn status_with_a_current_song() {
    let raw = DaemonStatus {
        volume: 80,
        repeat: true,
        random: true,
        single: true,
        consume: false,
        state: DaemonState::Play,
        song: Some(QueuePlace { id: 12, pos: 3, prio: 0 }),
        elapsed: Some(Span { secs: 10, nanos: 250_000_000 }),
        duration: Some(Span { secs: 200, nanos: 0 }),
    };
    let shaped = MpdStatus::get(raw, Some(record("a.mp3", &[("Album", "X")])));
    assert_eq!(
        shaped,
        Ok(MpdStatus {
            state: MpdState::Play,
            current_song: Some(QueueSong {
                queue_id: 12,
                queue_pos: 3,
                song: Song::from_song(record("a.mp3", &[("Album", "X")])),
            }),
            current_elapsed: Some(10),
            current_duration: Some(200),
            volume: Some(80),
            shot: MpdSongShot::SingleRepeat,
            random: true,
            consume: false,
        })
    );
}

#[test]
fn status_whose_song_does_not_resolve_is_a_communication_error() {
    let mut raw = stopped();
    raw.state = DaemonState::Pause;
    raw.song = Some(QueuePlace { id: 1, pos: 0, prio: 0 });
    assert_eq!(MpdStatus::get(raw, None), Err(MpdError::MpdErrorCommunication));
}

#[test]
fn status_without_slot_does_not_read_the_lookup() {
    let shaped = MpdStatus::get(stopped(), Some(record("stray.mp3", &[])));
    assert_eq!(shaped, MpdStatus::get(stopped(), None));
    assert_eq!(shaped.unwrap().current_song, None);
}

#[test]
fn envelope_of_a_success() {
    let envelope = result(|| -> MpdResult<u32> { Ok(5) });
    assert_eq!(envelope, ConnectionResultWrapper::MpdOk(5));
    assert_eq!(ConnectionResultWrapper::from_outcome(Ok::<u32, MpdError>(5)), envelope);
}

#[test]
fn envelope_of_a_failure() {
    let envelope = result(|| -> MpdResult<u32> { Err(MpdError::MpdErrorConnection) });
    assert_eq!(envelope, ConnectionResultWrapper::MpdError(MpdError::MpdErrorConnection));
    let envelope: ConnectionResultWrapper<String> =
        ConnectionResultWrapper::from_outcome(Err(MpdError::MpdErrorCommunication));
    assert_eq!(envelope, ConnectionResultWrapper::MpdError(MpdError::MpdErrorCommunication));
}

#[test]
fn first_tag_of_a_song_wins() {
    let tags = vec![
        (text("Album"), text("X")),
        (text("AlbumArtist"), text("First")),
        (text("AlbumArtist"), text("Second")),
    ];
    assert_eq!(find_tag(&tags, &text("AlbumArtist")), Some(text("First")));
    assert_eq!(find_tag(&tags, &text("Album")), Some(text("X")));
    assert_eq!(find_tag(&tags, &text("Genre")), None);
    assert_eq!(find_tag(&vec![], &text("Album")), None);
}

#[test]
fn tag_names_are_compared_exactly() {
    let tags = vec![(text("albumartist"), text("lower")), (text("AlbumArtist "), text("space"))];
    assert_eq!(find_tag(&tags, &text("AlbumArtist")), None);
}

#[test]
fn first_song_with_the_tag_wins() {
    let songs = shape_songs(vec![
        record("1", &[("Album", "X")]),
        record("2", &[("AlbumArtist", "Second")]),
        record("3", &[("AlbumArtist", "Third")]),
    ]);
    assert_eq!(find_in_songs(&songs, &text("AlbumArtist")), Some(text("Second")));
    assert_eq!(find_in_songs(&songs, &text("Genre")), None);
    assert_eq!(find_in_songs(&vec![], &text("AlbumArtist")), None);
}

#[test]
fn conflicting_album_artists_first_song_wins() {
    let album = LibraryAlbum::from_songs(
        text("X"),
        vec![
            record("1", &[("AlbumArtist", "Alice")]),
            record("2", &[("AlbumArtist", "Bob")]),
        ],
    );
    assert_eq!(album.artist, Some(text("Alice")));
    let album = LibraryAlbum::from_songs(
        text("X"),
        vec![
            record("2", &[("AlbumArtist", "Bob")]),
            record("1", &[("AlbumArtist", "Alice")]),
        ],
    );
    assert_eq!(album.artist, Some(text("Bob")));
}

#[test]
fn album_fields_are_found_independently() {
    let raws = vec![
        record("1", &[("MUSICBRAINZ_ALBUMID", "album-1")]),
        record("2", &[("AlbumArtist", "Alice"), ("MUSICBRAINZ_ALBUMID", "album-2")]),
        record("3", &[("MUSICBRAINZ_ALBUMARTISTID", "artist-3"), ("AlbumArtist", "Carol")]),
    ];
    let album = LibraryAlbum::from_songs(text("X"), raws.clone());
    assert_eq!(
        album,
        LibraryAlbum {
            name: text("X"),
            artist: Some(text("Alice")),
            musicbrainz_artistid: Some(text("artist-3")),
            musicbrainz_albumid: Some(text("album-1")),
            songs: shape_songs(raws),
        }
    );
}

#[test]
fn album_without_songs_or_tags() {
    let album = LibraryAlbum::from_songs(text(""), vec![]);
    assert_eq!(
        album,
        LibraryAlbum {
            name: text(""),
            artist: None,
            musicbrainz_artistid: None,
            musicbrainz_albumid: None,
            songs: vec![],
        }
    );
    let album = LibraryAlbum::from_songs(text("Y"), vec![record("1", &[("Album", "Y")])]);
    assert_eq!(album.artist, None);
    assert_eq!(album.musicbrainz_artistid, None);
    assert_eq!(album.musicbrainz_albumid, None);
    assert_eq!(album.songs.len(), 1);
}

#[test]
fn library_holds_the_albums_in_order() {
    let one = LibraryAlbum::from_songs(text("One"), vec![record("1", &[])]);
    let two = LibraryAlbum::from_songs(text("Two"), vec![]);
    let library = Library::from_albums(vec![one.clone(), two.clone()]);
    assert_eq!(library, Library { test: text("abc"), albums: vec![one, two] });
    assert_eq!(Library::from_albums(vec![]), Library { test: text("abc"), albums: vec![] });
}
