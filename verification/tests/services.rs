use jiosaavn_api::common::types::{
    choose_lookup, lookup_error_message, lookup_failure, missing_parameters, ApiError, Failure, FetchRequest, Lookup,
};
use jiosaavn_api::modules::albums::{
    album_by_id_request, album_by_link_request, album_failure, album_from_response, album_lookup,
    album_missing_parameters, AlbumQuery, RawAlbum,
};
use jiosaavn_api::modules::artists::{
    artist_albums_failure, artist_albums_from_response, artist_albums_listing_of, artist_by_id_failure,
    artist_by_id_request, artist_by_link_request, artist_details_request_of, artist_failure, artist_from_response,
    artist_missing_parameters, artist_request_of, artist_songs_failure, artist_songs_from_response,
    artist_songs_listing_of, artist_songs_request, ArtistQuery, ArtistSubQuery, RawArtistAlbumsWrapper,
    RawArtistSongsWrapper, RawTopAlbums, RawTopSongs,
};
use jiosaavn_api::modules::playlists::{
    playlist_by_id_request, playlist_by_link_request, playlist_failure, playlist_from_response,
    playlist_missing_parameters, playlist_request_of, PlaylistQuery, RawPlaylist,
};
use jiosaavn_api::modules::search::{
    search_all_request, search_failure, search_page_of, search_songs_from_response, search_songs_request,
    RawSearchSongs, SearchSubQuery,
};
use jiosaavn_api::modules::songs::{
    song_by_id_failure, songs_by_ids_request, songs_by_link_request, songs_failure, songs_from_response,
    songs_lookup, songs_missing_parameters, station_from_response, station_request, suggestions_failure,
    suggestions_from_response, suggestions_request, RawSong, RawSongsWrapper, RawStationResponse,
    RawSuggestionElement, SongsQuery,
};

fn s(v: &str) -> String {
    v.to_string()
}

fn params(r: &FetchRequest) -> Vec<(&str, &str)> {
    r.params.iter().map(|(a, b)| (a.as_str(), b.as_str())).collect()
}

fn song(id: &str) -> RawSong {
    RawSong {
        id: s(id),
        title: s(id),
        item_type: s("song"),
        perma_url: s("u"),
        image: s(""),
        language: s("hindi"),
        year: None,
        play_count: None,
        explicit_content: None,
        more_info: None,
    }
}

#[test]
fn status_codes_and_messages() {
    assert_eq!(ApiError::BadRequest.status_code(), 400);
    assert_eq!(ApiError::NotFound.status_code(), 404);
    assert_eq!(ApiError::InternalServerError.status_code(), 500);
    assert_eq!(lookup_error_message(ApiError::BadRequest, "Song not found"), "Invalid link formatting");
    assert_eq!(lookup_error_message(ApiError::NotFound, "Song not found"), "Song not found");
    assert_eq!(lookup_error_message(ApiError::InternalServerError, "Song not found"), "Internal server error");
}

#[test]
fn link_takes_precedence_over_id() {
    assert!(matches!(songs_lookup(SongsQuery { ids: Some(s("1,2")), link: Some(s("l")) }), Ok(Lookup::Link(l)) if l == "l"));
    assert!(matches!(songs_lookup(SongsQuery { ids: Some(s("1,2")), link: None }), Ok(Lookup::Id(i)) if i == "1,2"));
    assert!(matches!(songs_lookup(SongsQuery { ids: None, link: None }), Err(ApiError::BadRequest)));
    assert!(matches!(album_lookup(AlbumQuery { id: None, link: None }), Err(ApiError::BadRequest)));
    assert!(matches!(choose_lookup(Some(s("id")), None), Ok(Lookup::Id(i)) if i == "id"));
}

#[test]
fn song_requests() {
    let r = songs_by_ids_request("a,b");
    assert_eq!(r.call, "song.getDetails");
    assert_eq!(params(&r), vec![("pids", "a,b")]);
    assert_eq!(r.context, None);
    let r = songs_by_link_request("https://www.jiosaavn.com/song/tum-hi-ho/EToxUyFpcwQ").unwrap();
    assert_eq!(r.call, "webapi.get");
    assert_eq!(params(&r), vec![("token", "EToxUyFpcwQ"), ("type", "song")]);
    assert!(matches!(songs_by_link_request("https://www.jiosaavn.com/album/x/y"), Err(ApiError::BadRequest)));
}

#[test]
fn song_answers() {
    assert!(matches!(songs_from_response(None), Err(ApiError::InternalServerError)));
    assert!(matches!(songs_from_response(Some(RawSongsWrapper { songs: None })), Err(ApiError::NotFound)));
    assert!(matches!(songs_from_response(Some(RawSongsWrapper { songs: Some(vec![]) })), Err(ApiError::NotFound)));
    let songs = songs_from_response(Some(RawSongsWrapper { songs: Some(vec![song("x"), song("y")]) })).unwrap();
    assert_eq!(songs.iter().map(|s| s.id.as_str()).collect::<Vec<_>>(), vec!["x", "y"]);
}

#[test]
fn station_requests_and_answers() {
    let r = station_request("abc 1");
    assert_eq!(r.call, "webradio.createEntityStation");
    assert_eq!(params(&r), vec![("entity_id", "[\"abc%201\"]"), ("entity_type", "queue")]);
    assert_eq!(r.context.as_deref(), Some("android"));
    assert_eq!(station_from_response(Some(RawStationResponse { stationid: Some(s("st")) })).unwrap(), "st");
    assert!(matches!(station_from_response(Some(RawStationResponse { stationid: None })), Err(ApiError::InternalServerError)));
    assert!(matches!(station_from_response(None), Err(ApiError::InternalServerError)));
    let r = suggestions_request(s("st"), 7);
    assert_eq!(r.call, "webradio.getSong");
    assert_eq!(params(&r), vec![("stationid", "st"), ("k", "7")]);
}

#[test]
fn suggestions_come_in_key_order() {
    let entry = |k: &str, id: Option<&str>| (s(k), id.map(|i| RawSuggestionElement { song: song(i) }));
    let entries = vec![
        entry("10", Some("ten")),
        entry("2", Some("two")),
        entry("stationid", Some("station")),
        entry("x", Some("unnumbered")),
        entry("0", Some("zero")),
        entry("1", None),
        entry("+3", Some("three")),
    ];
    let songs = suggestions_from_response(Some(Some(entries)), 10).unwrap();
    assert_eq!(songs.iter().map(|s| s.id.as_str()).collect::<Vec<_>>(), vec!["zero", "two", "three", "ten", "unnumbered"]);
    let entries = vec![entry("1", Some("b")), entry("0", Some("a")), entry("2", Some("c"))];
    let songs = suggestions_from_response(Some(Some(entries)), 2).unwrap();
    assert_eq!(songs.iter().map(|s| s.id.as_str()).collect::<Vec<_>>(), vec!["a", "b"]);
    assert!(matches!(suggestions_from_response(None, 5), Err(ApiError::InternalServerError)));
}

#[test]
fn no_suggestions_is_not_found() {
    let entry = |k: &str, id: Option<&str>| (s(k), id.map(|i| RawSuggestionElement { song: song(i) }));
    assert!(matches!(suggestions_from_response(Some(Some(vec![])), 5), Err(ApiError::NotFound)));
    assert!(matches!(suggestions_from_response(Some(None), 5), Err(ApiError::NotFound)));
    let only_station = vec![entry("stationid", Some("st")), entry("0", None)];
    assert!(matches!(suggestions_from_response(Some(Some(only_station)), 5), Err(ApiError::NotFound)));
    let one = vec![entry("0", Some("a"))];
    assert!(matches!(suggestions_from_response(Some(Some(one)), 0), Err(ApiError::NotFound)));
}

fn album(id: &str) -> RawAlbum {
    RawAlbum {
        id: s(id),
        title: s("t"),
        header_desc: None,
        item_type: s("album"),
        year: None,
        play_count: None,
        language: s("l"),
        explicit_content: None,
        perma_url: s("u"),
        image: s(""),
        more_info: None,
        list: None,
    }
}

#[test]
fn album_requests_and_answers() {
    let r = album_by_id_request("123");
    assert_eq!(r.call, "content.getAlbumDetails");
    assert_eq!(params(&r), vec![("albumid", "123")]);
    let r = album_by_link_request("https://www.jiosaavn.com/album/aashiqui-2/dCbh-xwPKGo_").unwrap();
    assert_eq!(params(&r), vec![("token", "dCbh-xwPKGo_"), ("type", "album")]);
    assert!(matches!(album_by_link_request("https://www.jiosaavn.com/album/x/"), Err(ApiError::BadRequest)));
    assert!(matches!(album_from_response(None), Err(ApiError::InternalServerError)));
    assert!(matches!(album_from_response(Some(album(""))), Err(ApiError::NotFound)));
    assert_eq!(album_from_response(Some(album("a1"))).unwrap().id, "a1");
}

fn playlist(id: &str, songs: Option<usize>) -> RawPlaylist {
    RawPlaylist {
        id: s(id),
        title: s("t"),
        header_desc: None,
        item_type: s("playlist"),
        year: None,
        play_count: None,
        language: s("l"),
        explicit_content: None,
        perma_url: s("u"),
        list_count: Some(s("99")),
        image: s(""),
        more_info: None,
        list: songs.map(|n| (0..n).map(|i| song(&i.to_string())).collect()),
    }
}

#[test]
fn playlist_requests() {
    let q = PlaylistQuery { id: Some(s("pl")), link: None, page: None, limit: None };
    let req = playlist_request_of(q).unwrap();
    assert!(matches!(&req.lookup, Lookup::Id(i) if i == "pl"));
    assert_eq!((req.page, req.limit), (0, 10));
    assert!(matches!(playlist_request_of(PlaylistQuery { id: None, link: None, page: Some(2), limit: Some(3) }), Err(ApiError::BadRequest)));
    let r = playlist_by_id_request("pl", -1, 25);
    assert_eq!(r.call, "playlist.getDetails");
    assert_eq!(params(&r), vec![("listid", "pl"), ("n", "25"), ("p", "-1")]);
    let r = playlist_by_link_request("https://www.jiosaavn.com/featured/x/ABC", 1, 5).unwrap();
    assert_eq!(params(&r), vec![("token", "ABC"), ("type", "playlist"), ("n", "5"), ("p", "1")]);
    assert!(matches!(playlist_by_link_request("no-slash", 1, 5), Err(ApiError::BadRequest)));
}

#[test]
fn playlist_answers_count_then_cut() {
    let pl = playlist_from_response(Some(playlist("p", Some(12))), 10).unwrap();
    assert_eq!(pl.song_count, Some(12));
    assert_eq!(pl.songs.unwrap().len(), 10);
    let pl = playlist_from_response(Some(playlist("p", None)), 10).unwrap();
    assert_eq!(pl.song_count, Some(99));
    assert!(pl.songs.is_none());
    assert!(matches!(playlist_from_response(Some(playlist("", Some(1))), 10), Err(ApiError::NotFound)));
    assert!(matches!(playlist_from_response(None, 10), Err(ApiError::InternalServerError)));
}

#[test]
fn artist_requests_and_defaults() {
    let q = ArtistQuery { id: Some(s("7")), link: None, page: None, song_count: None, album_count: Some(3), sort_by: None, sort_order: None };
    let req = artist_request_of(q).unwrap();
    assert_eq!((req.page, req.song_count, req.album_count), (0, 10, 3));
    assert_eq!((req.sort_by.as_str(), req.sort_order.as_str()), ("popularity", "asc"));
    let listing = artist_songs_listing_of(ArtistSubQuery { page: Some(2), sort_by: None, sort_order: None });
    assert_eq!((listing.page, listing.sort_by.as_str(), listing.sort_order.as_str()), (2, "popularity", "desc"));
    let listing = artist_albums_listing_of(ArtistSubQuery { page: None, sort_by: Some(s("latest")), sort_order: Some(s("asc")) });
    assert_eq!((listing.page, listing.sort_by.as_str(), listing.sort_order.as_str()), (0, "latest", "asc"));
    let req = artist_details_request_of(s("42"), ArtistSubQuery { page: Some(3), sort_by: None, sort_order: None });
    assert!(matches!(&req.lookup, Lookup::Id(i) if i == "42"));
    assert_eq!((req.page, req.song_count, req.album_count), (3, 10, 10));
    assert_eq!((req.sort_by.as_str(), req.sort_order.as_str()), ("popularity", "asc"));
    let r = artist_by_id_request("7", 1, 10, 3, "latest", "asc");
    assert_eq!(r.call, "artist.getArtistPageDetails");
    assert_eq!(
        params(&r),
        vec![("artistId", "7"), ("n_song", "10"), ("n_album", "3"), ("page", "1"), ("sort_order", "asc"), ("category", "latest")]
    );
    let r = artist_by_link_request("https://www.jiosaavn.com/artist/a/TOK", 0, 1, 2, "name", "desc").unwrap();
    assert_eq!(params(&r)[..2], [("token", "TOK"), ("type", "artist")]);
    let r = artist_songs_request("7", 0, "popularity", "desc");
    assert_eq!(r.call, "artist.getArtistMoreSong");
    assert_eq!(params(&r), vec![("artistId", "7"), ("page", "0"), ("sort_order", "desc"), ("category", "popularity")]);
}

#[test]
fn artist_answers() {
    assert!(matches!(artist_from_response(None), Err(ApiError::InternalServerError)));
    let page = artist_songs_from_response(Some(Some(RawArtistSongsWrapper { top_songs: RawTopSongs { total: 40, songs: vec![song("a")] } }))).unwrap();
    assert_eq!(page.total, 40);
    assert_eq!(page.songs[0].id, "a");
    assert!(matches!(artist_songs_from_response(None), Err(ApiError::InternalServerError)));
    assert!(matches!(artist_songs_from_response(Some(None)), Err(ApiError::NotFound)));
    let empty = RawArtistSongsWrapper { top_songs: RawTopSongs { total: 40, songs: vec![] } };
    assert!(matches!(artist_songs_from_response(Some(Some(empty))), Err(ApiError::NotFound)));
    let page = artist_albums_from_response(Some(Some(RawArtistAlbumsWrapper { top_albums: RawTopAlbums { total: 2, albums: vec![album("b1")] } }))).unwrap();
    assert_eq!(page.total, 2);
    assert_eq!(page.albums[0].id, "b1");
    assert!(matches!(artist_albums_from_response(None), Err(ApiError::InternalServerError)));
    assert!(matches!(artist_albums_from_response(Some(None)), Err(ApiError::NotFound)));
    let empty = RawArtistAlbumsWrapper { top_albums: RawTopAlbums { total: 0, albums: vec![] } };
    assert!(matches!(artist_albums_from_response(Some(Some(empty))), Err(ApiError::NotFound)));
}

#[test]
fn search_requests_and_answers() {
    let r = search_all_request("tum hi ho");
    assert_eq!(r.call, "autocomplete.get");
    assert_eq!(params(&r), vec![("query", "tum hi ho")]);
    let q = SearchSubQuery { query: s("q"), page: None, limit: Some(3) };
    assert_eq!(search_page_of(&q), (0, 3));
    let r = search_songs_request("q", 2, 3);
    assert_eq!(r.call, "search.getResults");
    assert_eq!(params(&r), vec![("q", "q"), ("p", "2"), ("n", "3")]);
    let res = search_songs_from_response(
        Some(RawSearchSongs { total: 100, start: 1, results: Some((0..5).map(|i| song(&i.to_string())).collect()) }),
        3,
    )
    .unwrap();
    assert_eq!((res.total, res.start, res.results.len()), (100, 1, 3));
    let res = search_songs_from_response(Some(RawSearchSongs { total: 0, start: 0, results: None }), 3).unwrap();
    assert!(res.results.is_empty());
    assert!(matches!(search_songs_from_response(None, 3), Err(ApiError::InternalServerError)));
}

fn answer(f: Failure) -> (u16, &'static str) {
    (f.status, f.message)
}

#[test]
fn missing_parameter_answers() {
    assert_eq!(answer(songs_missing_parameters()), (400, "Either song IDs or link is required"));
    assert_eq!(answer(album_missing_parameters()), (400, "Either album ID or link is required"));
    assert_eq!(answer(artist_missing_parameters()), (400, "Either artist ID or link is required"));
    assert_eq!(answer(playlist_missing_parameters()), (400, "Either playlist ID or link is required"));
    assert_eq!(answer(missing_parameters("m")), (400, "m"));
}

#[test]
fn lookup_failure_answers() {
    assert_eq!(answer(songs_failure(ApiError::BadRequest)), (400, "Invalid link formatting"));
    assert_eq!(answer(songs_failure(ApiError::NotFound)), (404, "Song not found"));
    assert_eq!(answer(songs_failure(ApiError::InternalServerError)), (500, "Internal server error"));
    assert_eq!(answer(album_failure(ApiError::NotFound)), (404, "Album not found"));
    assert_eq!(answer(album_failure(ApiError::BadRequest)), (400, "Invalid link formatting"));
    assert_eq!(answer(artist_failure(ApiError::NotFound)), (404, "Artist not found"));
    assert_eq!(answer(artist_failure(ApiError::InternalServerError)), (500, "Internal server error"));
    assert_eq!(answer(playlist_failure(ApiError::NotFound)), (404, "Playlist not found"));
    assert_eq!(answer(playlist_failure(ApiError::BadRequest)), (400, "Invalid link formatting"));
    assert_eq!(answer(lookup_failure(ApiError::NotFound, "x")), (404, "x"));
}

#[test]
fn fixed_message_failure_answers() {
    assert_eq!(answer(song_by_id_failure(ApiError::NotFound)), (404, "Song not found"));
    assert_eq!(answer(song_by_id_failure(ApiError::InternalServerError)), (500, "Song not found"));
    assert_eq!(answer(suggestions_failure(ApiError::NotFound)), (404, "No suggestions found"));
    assert_eq!(answer(suggestions_failure(ApiError::InternalServerError)), (500, "No suggestions found"));
    assert_eq!(answer(artist_by_id_failure(ApiError::InternalServerError)), (500, "Artist not found"));
    assert_eq!(answer(artist_songs_failure(ApiError::NotFound)), (404, "Artist songs not found"));
    assert_eq!(answer(artist_albums_failure(ApiError::NotFound)), (404, "Artist albums not found"));
    assert_eq!(answer(search_failure(ApiError::InternalServerError)), (500, "Search error"));
}
