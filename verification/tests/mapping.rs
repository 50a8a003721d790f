use jiosaavn_api::modules::albums::{map_album, RawAlbum, RawAlbumMoreInfo};
use jiosaavn_api::modules::artists::{map_artist, map_similar_artist, RawArtist, RawArtistUrls, RawSimilarArtist};
use jiosaavn_api::modules::playlists::{map_playlist, RawPlaylist, RawPlaylistMoreInfo};
use jiosaavn_api::modules::search::{
    map_search_album_result, map_search_all, map_search_playlist_result, RawSearchAll, RawSearchAlbumsItem,
    RawSearchAlbumsMoreInfo, RawSearchArtistItem, RawSearchPlaylistItemInner, RawSearchPlaylistItemMoreInfo,
    RawSearchSection, RawSearchSongItem, RawSearchSongMoreInfo,
};
use jiosaavn_api::modules::songs::{map_artist_mini, map_song, RawArtistMap, RawArtistMini, RawSong, RawSongMoreInfo};

fn s(v: &str) -> String {
    v.to_string()
}

fn artist(id: &str) -> RawArtistMini {
    RawArtistMini {
        id: s(id),
        name: format!("Artist {id}"),
        role: s("singer"),
        item_type: s("artist"),
        image: s("http://c.saavncdn.com/a-150x150.jpg"),
        perma_url: format!("https://www.jiosaavn.com/artist/x/{id}"),
    }
}

pub fn raw_song(id: &str) -> RawSong {
    RawSong {
        id: s(id),
        title: format!("Song {id}"),
        item_type: s("song"),
        perma_url: format!("https://www.jiosaavn.com/song/x/{id}"),
        image: s("https://c.saavncdn.com/s-150x150.jpg"),
        language: s("hindi"),
        year: Some(s("2013")),
        play_count: Some(s("12345")),
        explicit_content: Some(s("1")),
        more_info: Some(RawSongMoreInfo {
            album_id: Some(s("alb1")),
            album: Some(s("Album")),
            album_url: Some(s("https://www.jiosaavn.com/album/x/alb1")),
            duration: Some(s("262")),
            label: Some(s("T-Series")),
            encrypted_media_url: None,
            has_lyrics: Some(s("true")),
            lyrics_id: None,
            copyright_text: Some(s("(c) 2013")),
            artistMap: Some(RawArtistMap {
                primary_artists: Some(vec![artist("p1"), artist("p2")]),
                featured_artists: None,
                artists: Some(vec![artist("a1")]),
            }),
            release_date: Some(s("2013-04-05")),
        }),
    }
}

#[test]
fn artist_mini_in_service_form() {
    let a = map_artist_mini(artist("x1"));
    assert_eq!(a.id, "x1");
    assert_eq!(a.url, "https://www.jiosaavn.com/artist/x/x1");
    assert_eq!(a.image.len(), 3);
    assert_eq!(a.image[0].url, "https://c.saavncdn.com/a-50x50.jpg");
}

#[test]
fn song_in_service_form() {
    let song = map_song(raw_song("s1"));
    assert_eq!(song.id, "s1");
    assert_eq!(song.name, "Song s1");
    assert_eq!(song.duration, Some(262));
    assert_eq!(song.play_count, Some(12345));
    assert!(song.explicit_content);
    assert!(song.has_lyrics);
    assert_eq!(song.release_date.as_deref(), Some("2013-04-05"));
    assert_eq!(song.album.id.as_deref(), Some("alb1"));
    assert_eq!(song.artists.primary.len(), 2);
    assert_eq!(song.artists.featured.len(), 0);
    assert_eq!(song.artists.all.len(), 1);
    assert_eq!(song.artists.primary[1].id, "p2");
    assert_eq!(song.image[2].url, "https://c.saavncdn.com/s-500x500.jpg");
    assert!(song.download_url.is_empty());
}

#[test]
fn song_flags_and_numbers_fall_back() {
    let mut raw = raw_song("s2");
    raw.explicit_content = Some(s("0"));
    raw.play_count = Some(s("many"));
    raw.more_info = None;
    let song = map_song(raw);
    assert!(!song.explicit_content);
    assert!(!song.has_lyrics);
    assert_eq!(song.play_count, None);
    assert_eq!(song.duration, None);
    assert_eq!(song.album.name, None);
    assert!(song.artists.primary.is_empty() && song.artists.all.is_empty());
}

fn raw_album(id: &str) -> RawAlbum {
    RawAlbum {
        id: s(id),
        title: s("Aashiqui 2"),
        header_desc: Some(s("desc")),
        item_type: s("album"),
        year: Some(s("2013")),
        play_count: None,
        language: s("hindi"),
        explicit_content: None,
        perma_url: s("https://www.jiosaavn.com/album/aashiqui-2/x"),
        image: s("https://c.saavncdn.com/al-150x150.jpg"),
        more_info: Some(RawAlbumMoreInfo { song_count: Some(s("11")), artistMap: None }),
        list: Some(vec![raw_song("a"), raw_song("b")]),
    }
}

#[test]
fn album_in_service_form() {
    let album = map_album(raw_album("al1"));
    assert_eq!(album.name, "Aashiqui 2");
    assert_eq!(album.year, Some(2013));
    assert_eq!(album.song_count, Some(11));
    assert!(!album.explicit_content);
    let songs = album.songs.unwrap();
    assert_eq!(songs.len(), 2);
    assert_eq!(songs[1].id, "b");
}

#[test]
fn playlist_in_service_form() {
    let raw = RawPlaylist {
        id: s("pl1"),
        title: s("Top 50"),
        header_desc: None,
        item_type: s("playlist"),
        year: None,
        play_count: Some(s("-3")),
        language: s("english"),
        explicit_content: Some(s("1")),
        perma_url: s("https://www.jiosaavn.com/featured/top/pl1"),
        list_count: Some(s("50")),
        image: s("https://c.saavncdn.com/pl.jpg"),
        more_info: Some(RawPlaylistMoreInfo { artists: Some(vec![artist("z")]) }),
        list: None,
    };
    let pl = map_playlist(raw);
    assert_eq!(pl.play_count, Some(-3));
    assert_eq!(pl.song_count, Some(50));
    assert!(pl.explicit_content);
    assert_eq!(pl.artists.unwrap()[0].id, "z");
    assert!(pl.songs.is_none());
    assert_eq!(pl.image[1].url, "https://c.saavncdn.com/pl.jpg");
}

fn raw_similar() -> RawSimilarArtist {
    RawSimilarArtist {
        id: s("sa"),
        name: s("Similar"),
        perma_url: s("https://www.jiosaavn.com/artist/s/sa"),
        image_url: s("http://c.saavncdn.com/sa-150x150.jpg"),
        languages: Some(s("{\"hindi\":\"1\"}")),
        wiki: None,
        dob: None,
        fb: None,
        twitter: None,
        is_radio_present: Some(true),
        item_type: s("artist"),
        dominantType: Some(s("singer")),
        aka: None,
        bio: Some(s("plain text bio")),
        similar: Some(s("[]")),
    }
}

#[test]
fn similar_artist_keeps_only_json_text() {
    let a = map_similar_artist(raw_similar());
    assert_eq!(a.languages.as_deref(), Some("{\"hindi\":\"1\"}"));
    assert_eq!(a.bio, None);
    assert_eq!(a.similar_artists.as_deref(), Some("[]"));
    assert_eq!(a.image[0].url, "https://c.saavncdn.com/sa-50x50.jpg");
}

fn raw_artist() -> RawArtist {
    RawArtist {
        artistId: None,
        id: Some(s("459320")),
        name: s("Arijit Singh"),
        urls: Some(RawArtistUrls { overview: None }),
        perma_url: Some(s("https://www.jiosaavn.com/artist/arijit-singh-songs/x")),
        item_type: s("artist"),
        follower_count: Some(s("123")),
        fan_count: Some(s("9")),
        isVerified: Some(true),
        dominantLanguage: Some(s("hindi")),
        dominantType: Some(s("singer")),
        bio: Some(s("[{\"text\":\"hi\"}]")),
        dob: None,
        fb: None,
        twitter: None,
        wiki: None,
        availableLanguages: Some(vec![s("hindi")]),
        isRadioPresent: None,
        image: s("https://c.saavncdn.com/ar-150x150.jpg"),
        topSongs: Some(vec![raw_song("t1")]),
        topAlbums: None,
        singles: Some(vec![]),
        similarArtists: Some(vec![raw_similar()]),
    }
}

#[test]
fn artist_in_service_form() {
    let a = map_artist(raw_artist());
    assert_eq!(a.id, "459320");
    assert_eq!(a.url, "https://www.jiosaavn.com/artist/arijit-singh-songs/x");
    assert_eq!(a.follower_count, Some(123));
    assert_eq!(a.bio.as_deref(), Some("[{\"text\":\"hi\"}]"));
    assert_eq!(a.top_songs.unwrap()[0].id, "t1");
    assert!(a.top_albums.is_none());
    assert!(a.singles.unwrap().is_empty());
    assert_eq!(a.similar_artists.unwrap().len(), 1);
}

#[test]
fn artist_id_and_address_fall_back() {
    let mut raw = raw_artist();
    raw.artistId = Some(s("primary"));
    raw.urls = Some(RawArtistUrls { overview: Some(s("https://overview")) });
    let a = map_artist(raw);
    assert_eq!(a.id, "primary");
    assert_eq!(a.url, "https://overview");
    let mut raw = raw_artist();
    raw.id = None;
    raw.perma_url = None;
    raw.urls = None;
    raw.bio = Some(s("{broken"));
    let a = map_artist(raw);
    assert_eq!(a.id, "");
    assert_eq!(a.url, "");
    assert_eq!(a.bio, None);
}

#[test]
fn search_all_maps_each_section() {
    let raw = RawSearchAll {
        topquery: None,
        songs: Some(RawSearchSection {
            data: vec![RawSearchSongItem {
                id: s("s"),
                title: s("T"),
                image: s("https://i/150x150.jpg"),
                perma_url: s("https://u"),
                item_type: s("song"),
                description: None,
                more_info: Some(RawSearchSongMoreInfo {
                    album: Some(s("Al")),
                    language: Some(s("hindi")),
                    primary_artists: Some(s("P")),
                    singers: None,
                }),
            }],
            position: 2,
        }),
        albums: None,
        artists: Some(RawSearchSection {
            data: vec![RawSearchArtistItem {
                id: s("a"),
                title: s("A"),
                image: s(""),
                item_type: s("artist"),
                description: None,
                position: 1,
            }],
            position: 3,
        }),
        playlists: None,
    };
    let res = map_search_all(raw);
    assert_eq!(res.top_query.position, 0);
    assert!(res.top_query.results.is_empty());
    assert_eq!(res.songs.position, 2);
    assert_eq!(res.songs.results[0].album.as_deref(), Some("Al"));
    assert_eq!(res.songs.results[0].image[2].url, "https://i/500x500.jpg");
    assert_eq!(res.artists.results[0].position, 1);
    assert!(res.artists.results[0].image.is_empty());
    assert!(res.albums.results.is_empty() && res.playlists.results.is_empty());
}

#[test]
fn search_album_and_playlist_results() {
    let album = map_search_album_result(RawSearchAlbumsItem {
        id: s("x"),
        title: s("X"),
        header_desc: None,
        perma_url: s("https://x"),
        year: Some(s("1999")),
        item_type: s("album"),
        play_count: Some(s("")),
        language: s("tamil"),
        explicit_content: Some(s("1")),
        image: s("https://x/150x150"),
        more_info: Some(RawSearchAlbumsMoreInfo {
            artist_map: Some(RawArtistMap { primary_artists: None, featured_artists: Some(vec![artist("f")]), artists: None }),
        }),
    });
    assert_eq!(album.year, Some(1999));
    assert_eq!(album.play_count, None);
    assert!(album.explicit_content);
    assert_eq!(album.artists.featured[0].id, "f");
    let playlist = map_search_playlist_result(RawSearchPlaylistItemInner {
        id: s("p"),
        title: s("P"),
        item_type: s("playlist"),
        image: s("https://p"),
        perma_url: s("https://p/u"),
        explicit_content: None,
        more_info: Some(RawSearchPlaylistItemMoreInfo { song_count: Some(s("+20")), language: None }),
    });
    assert_eq!(playlist.song_count, Some(20));
    assert!(!playlist.explicit_content);
}
