#![allow(non_snake_case)]
use vstd::prelude::*;
use crate::common::helpers::{create_image_links, image_links_spec};
use crate::common::constants::calls;
use crate::common::links::{entity_link_token, entity_token_spec};
use crate::common::types::{
    choose_lookup, links_view, pairs_view, param, request_is, token_request, ApiError, DownloadLink, FetchRequest,
    Lookup, failure_is, lookup_failure, lookup_message, missing_parameters, status_of, Failure,
};
use crate::common::numbers::parse_i32_spec;
use crate::modules::songs::{
    artist_map_mapped, flag_is, map_artist_map, map_song_list, optional_flag_is, parse_opt_i32,
    parse_optional_i32, songs_mapped, RawArtistMap, RawSong, Song, SongArtists,
};

verus! {

/// An album as the catalogue describes it.
#[derive(Debug)]
pub struct RawAlbum {
    pub id: String,
    pub title: String,
    pub header_desc: Option<String>,
    pub item_type: String,
    pub year: Option<String>,
    pub play_count: Option<String>,
    pub language: String,
    pub explicit_content: Option<String>,
    pub perma_url: String,
    pub image: String,
    pub more_info: Option<RawAlbumMoreInfo>,
    pub list: Option<Vec<RawSong>>,
}

/// The details of an album that the catalogue nests under `more_info`.
#[derive(Debug)]
pub struct RawAlbumMoreInfo {
    pub song_count: Option<String>,
    pub artistMap: Option<RawArtistMap>,
}

/// An album.
#[derive(Debug)]
pub struct Album {
    pub id: String,
    pub name: String,
    pub description: Option<String>,
    pub item_type: String,
    pub year: Option<i32>,
    pub play_count: Option<i32>,
    pub language: String,
    pub explicit_content: bool,
    pub url: String,
    pub song_count: Option<i32>,
    pub artists: SongArtists,
    pub image: Vec<DownloadLink>,
    pub songs: Option<Vec<Song>>,
}

/// The parameters of an album request: its id or its address.
#[derive(Debug)]
pub struct AlbumQuery {
    pub id: Option<String>,
    pub link: Option<String>,
}

pub open spec fn album_more_info_or_empty(o: Option<RawAlbumMoreInfo>) -> RawAlbumMoreInfo {
    match o {
        Some(m) => m,
        None => RawAlbumMoreInfo { song_count: None, artistMap: None },
    }
}

/// An optional song list mapped element by element; absent exactly when `raws` is.
pub open spec fn optional_songs_mapped(raws: Option<Vec<RawSong>>, outs: Option<Vec<Song>>) -> bool {
    match (raws, outs) {
        (Some(r), Some(o)) => songs_mapped(r@, o@),
        (None, None) => true,
        _ => false,
    }
}

/// `out` is `raw` in the service's form.
pub open spec fn album_mapped(raw: RawAlbum, out: Album) -> bool {
    let m = album_more_info_or_empty(raw.more_info);
    &&& out.id == raw.id
    &&& out.name == raw.title
    &&& out.description == raw.header_desc
    &&& out.item_type == raw.item_type
    &&& out.year == parse_opt_i32(raw.year)
    &&& out.play_count == parse_opt_i32(raw.play_count)
    &&& out.language == raw.language
    &&& out.explicit_content == flag_is(raw.explicit_content, "1"@)
    &&& out.url == raw.perma_url
    &&& out.song_count == parse_opt_i32(m.song_count)
    &&& artist_map_mapped(m.artistMap, out.artists)
    &&& links_view(out.image@) == image_links_spec(raw.image@)
    &&& optional_songs_mapped(raw.list, out.songs)
}

/// `outs` is `raws`, element by element, in the service's form.
pub open spec fn albums_mapped(raws: Seq<RawAlbum>, outs: Seq<Album>) -> bool {
    &&& outs.len() == raws.len()
    &&& forall|i: int| 0 <= i < raws.len() ==> album_mapped(#[trigger] raws[i], outs[i])
}

/// An optional song list in the service's form.
pub fn map_optional_songs(raws: Option<Vec<RawSong>>) -> (r: Option<Vec<Song>>)
    ensures
        optional_songs_mapped(raws, r),
{
    match raws {
        Some(list) => Some(map_song_list(list)),
        None => None,
    }
}

/// An album in the service's form.
pub fn map_album(raw: RawAlbum) -> (r: Album)
    ensures
        album_mapped(raw, r),
{
    let ghost given = raw;
    let RawAlbum {
        id, title, header_desc, item_type, year, play_count, language, explicit_content, perma_url,
        image, more_info, list,
    } = raw;
    let m = match more_info {
        Some(m) => m,
        None => RawAlbumMoreInfo { song_count: None, artistMap: None },
    };
    assert(m == album_more_info_or_empty(given.more_info));
    let RawAlbumMoreInfo { song_count, artistMap } = m;
    proof {
        reveal_strlit("1");
    }
    let explicit = optional_flag_is(&explicit_content, "1");
    let image_links = create_image_links(image.as_str());
    Album {
        id,
        name: title,
        description: header_desc,
        item_type,
        year: parse_optional_i32(year),
        play_count: parse_optional_i32(play_count),
        language,
        explicit_content: explicit,
        url: perma_url,
        song_count: parse_optional_i32(song_count),
        artists: map_artist_map(artistMap),
        image: image_links,
        songs: map_optional_songs(list),
    }
}

/// Every album of the list, in the service's form.
pub fn map_album_list(raws: Vec<RawAlbum>) -> (r: Vec<Album>)
    ensures
        albums_mapped(raws@, r@),
{
    let mut out: Vec<Album> = Vec::new();
    let ghost items = raws@;
    for raw in it: raws.into_iter()
        invariant
            it.seq() == items,
            out@.len() == it.index(),
            forall|i: int| 0 <= i < it.index() ==> album_mapped(#[trigger] items[i], out@[i]),
    {
        out.push(map_album(raw));
    }
    out
}

/// How an album request names its album (address first, then id; neither is a bad request).
pub fn album_lookup(query: AlbumQuery) -> (r: Result<Lookup, ApiError>)
    ensures
        match (query.link, query.id) {
            (Some(l), _) => r == Ok::<Lookup, ApiError>(Lookup::Link(l)),
            (None, Some(i)) => r == Ok::<Lookup, ApiError>(Lookup::Id(i)),
            (None, None) => r == Err::<Lookup, ApiError>(ApiError::BadRequest),
        },
{
    choose_lookup(query.id, query.link)
}

/// The call for the album `album_id`.
pub fn album_by_id_request(album_id: &str) -> (r: FetchRequest)
    ensures
        request_is(r, calls::albums::ID@, seq![("albumid"@, album_id@)], None),
{
    let mut params: Vec<(String, String)> = Vec::new();
    params.push(param("albumid", String::from_str(album_id)));
    let r = FetchRequest { call: String::from_str(calls::albums::ID), params, context: None };
    assert(pairs_view(r.params@) =~= seq![("albumid"@, album_id@)]);
    r
}

/// The call for the album at the address `link`; a bad request when `link` is not the
/// address of an album page.
pub fn album_by_link_request(link: &str) -> (r: Result<FetchRequest, ApiError>)
    ensures
        match entity_token_spec(link@, "album"@) {
            Some(t) => r matches Ok(req) && request_is(req, "webapi.get"@, seq![("token"@, t), ("type"@, "album"@)], None),
            None => r == Err::<FetchRequest, ApiError>(ApiError::BadRequest),
        },
{
    match entity_link_token(link, "album") {
        Some(token) => {
            let none: Vec<(String, String)> = Vec::new();
            assert(pairs_view(none@) =~= Seq::empty());
            Ok(token_request(token, "album", none))
        },
        None => Err(ApiError::BadRequest),
    }
}

/// The album of the catalogue's answer (`None`: the call failed): an error when the call
/// failed; not found when the answer has an empty id; else the album in the service's form.
pub fn album_from_response(result: Option<RawAlbum>) -> (r: Result<Album, ApiError>)
    ensures
        match result {
            None => r == Err::<Album, ApiError>(ApiError::InternalServerError),
            Some(raw) => if raw.id@.len() == 0 {
                r == Err::<Album, ApiError>(ApiError::NotFound)
            } else {
                r matches Ok(album) && album_mapped(raw, album)
            },
        },
{
    match result {
        None => Err(ApiError::InternalServerError),
        Some(raw) => {
            if raw.id.as_str().is_empty() {
                Err(ApiError::NotFound)
            } else {
                Ok(map_album(raw))
            }
        },
    }
}

/// The answer to an album request that gives neither an id nor an address.
pub fn album_missing_parameters() -> (r: Failure)
    ensures
        failure_is(r, 400u16, "Either album ID or link is required"@),
{
    missing_parameters("Either album ID or link is required")
}

/// The answer to a failed album request.
pub fn album_failure(e: ApiError) -> (r: Failure)
    ensures
        failure_is(r, status_of(e), lookup_message(e, "Album not found"@)),
{
    lookup_failure(e, "Album not found")
}

// --- Laws ---

/// Law: an album keeps the catalogue's identity and texts. Its id, name, description,
/// type, language and address are the catalogue's `id`, `title`, `header_desc`, `type`,
/// `language` and `perma_url`; its year and play count are the catalogue's numerals read
/// as numbers; it is explicit exactly when the catalogue's flag is `"1"`. From
/// `more_info`, its song count is `song_count` read as a number and its artists are those
/// of `artistMap` (none and no count without `more_info`). It lists songs exactly when
/// the catalogue does, each in the service's form.
pub proof fn law_album_fields(raw: RawAlbum, out: Album)
    requires
        album_mapped(raw, out),
    ensures
        out.id == raw.id,
        out.name == raw.title,
        out.description == raw.header_desc,
        out.item_type == raw.item_type,
        out.language == raw.language,
        out.url == raw.perma_url,
        out.year == (match raw.year { Some(n) => parse_i32_spec(n@), None => None }),
        out.play_count == (match raw.play_count { Some(n) => parse_i32_spec(n@), None => None }),
        out.explicit_content == (raw.explicit_content matches Some(f) && f@ == "1"@),
        links_view(out.image@) == image_links_spec(raw.image@),
        raw.more_info matches Some(m) ==> {
            &&& out.song_count == (match m.song_count { Some(n) => parse_i32_spec(n@), None => None })
            &&& artist_map_mapped(m.artistMap, out.artists)
        },
        raw.more_info is None ==> out.song_count is None && artist_map_mapped(None, out.artists),
        raw.list is None <==> out.songs is None,
        raw.list matches Some(l) ==> (out.songs matches Some(o) && songs_mapped(l@, o@)),
{
}

/// Law: a list of albums keeps its length and order: the i-th album given is the i-th
/// album listed by the catalogue.
pub proof fn law_album_list_order(raws: Seq<RawAlbum>, outs: Seq<Album>)
    requires
        albums_mapped(raws, outs),
    ensures
        outs.len() == raws.len(),
        forall|i: int| 0 <= i < raws.len() ==> album_mapped(#[trigger] raws[i], outs[i]),
{
}

} // verus!
