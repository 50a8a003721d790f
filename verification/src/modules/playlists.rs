use vstd::prelude::*;
use crate::common::helpers::{create_image_links, image_links_spec};
use crate::common::constants::calls;
use crate::common::links::{playlist_link_token, playlist_token_spec};
use crate::common::numbers::{decimal_repr, parse_i32_spec, i32_repr, i32_to_string, usize_to_string};
use crate::common::types::{
    choose_lookup, limit_or_default, links_view, page_or_default, pairs_view, param, request_is, token_request,
    ApiError, DownloadLink, FetchRequest, Lookup, failure_is, lookup_failure, lookup_message, missing_parameters, status_of, Failure,
};
use crate::modules::albums::{map_optional_songs, optional_songs_mapped};
use crate::modules::songs::{
    artists_mapped, songs_mapped, flag_is, map_artist_list, optional_flag_is, parse_opt_i32, parse_optional_i32, song_mapped,
    ArtistMini, RawArtistMini, RawSong, Song,
};

verus! {

/// A playlist as the catalogue describes it.
#[derive(Debug)]
pub struct RawPlaylist {
    pub id: String,
    pub title: String,
    pub header_desc: Option<String>,
    pub item_type: String,
    pub year: Option<String>,
    pub play_count: Option<String>,
    pub language: String,
    pub explicit_content: Option<String>,
    pub perma_url: String,
    pub list_count: Option<String>,
    pub image: String,
    pub more_info: Option<RawPlaylistMoreInfo>,
    pub list: Option<Vec<RawSong>>,
}

/// The details of a playlist that the catalogue nests under `more_info`.
#[derive(Debug)]
pub struct RawPlaylistMoreInfo {
    pub artists: Option<Vec<RawArtistMini>>,
}

/// A playlist.
#[derive(Debug)]
pub struct Playlist {
    pub id: String,
    pub name: String,
    pub description: Option<String>,
    pub item_type: String,
    pub year: Option<i32>,
    pub play_count: Option<i32>,
    pub language: String,
    pub explicit_content: bool,
    pub url: String,
    pub song_count: Option<i32>,
    pub artists: Option<Vec<ArtistMini>>,
    pub image: Vec<DownloadLink>,
    pub songs: Option<Vec<Song>>,
}

/// The parameters of a playlist request.
#[derive(Debug)]
pub struct PlaylistQuery {
    pub id: Option<String>,
    pub link: Option<String>,
    pub page: Option<i32>,
    pub limit: Option<usize>,
}

pub open spec fn playlist_more_info_or_empty(o: Option<RawPlaylistMoreInfo>) -> RawPlaylistMoreInfo {
    match o {
        Some(m) => m,
        None => RawPlaylistMoreInfo { artists: None },
    }
}

/// An optional artist list mapped element by element; absent exactly when `raws` is.
pub open spec fn optional_artists_mapped(raws: Option<Vec<RawArtistMini>>, outs: Option<Vec<ArtistMini>>) -> bool {
    match (raws, outs) {
        (Some(r), Some(o)) => artists_mapped(r@, o@),
        (None, None) => true,
        _ => false,
    }
}

/// `out` is `raw` in the service's form.
pub open spec fn playlist_mapped(raw: RawPlaylist, out: Playlist) -> bool {
    &&& playlist_details_mapped(raw, out)
    &&& out.song_count == parse_opt_i32(raw.list_count)
    &&& optional_songs_mapped(raw.list, out.songs)
}

/// `out` has the fields of `raw` in the service's form, its songs and song count aside.
pub open spec fn playlist_details_mapped(raw: RawPlaylist, out: Playlist) -> bool {
    let m = playlist_more_info_or_empty(raw.more_info);
    &&& out.id == raw.id
    &&& out.name == raw.title
    &&& out.description == raw.header_desc
    &&& out.item_type == raw.item_type
    &&& out.year == parse_opt_i32(raw.year)
    &&& out.play_count == parse_opt_i32(raw.play_count)
    &&& out.language == raw.language
    &&& out.explicit_content == flag_is(raw.explicit_content, "1"@)
    &&& out.url == raw.perma_url
    &&& optional_artists_mapped(m.artists, out.artists)
    &&& links_view(out.image@) == image_links_spec(raw.image@)
}

/// A playlist in the service's form.
pub fn map_playlist(raw: RawPlaylist) -> (r: Playlist)
    ensures
        playlist_mapped(raw, r),
{
    let ghost given = raw;
    let RawPlaylist {
        id, title, header_desc, item_type, year, play_count, language, explicit_content, perma_url,
        list_count, image, more_info, list,
    } = raw;
    let m = match more_info {
        Some(m) => m,
        None => RawPlaylistMoreInfo { artists: None },
    };
    assert(m == playlist_more_info_or_empty(given.more_info));
    let artists = match m.artists {
        Some(l) => {
            let mapped = map_artist_list(Some(l));
            Some(mapped)
        },
        None => None,
    };
    proof {
        reveal_strlit("1");
    }
    let explicit = optional_flag_is(&explicit_content, "1");
    let image_links = create_image_links(image.as_str());
    Playlist {
        id,
        name: title,
        description: header_desc,
        item_type,
        year: parse_optional_i32(year),
        play_count: parse_optional_i32(play_count),
        language,
        explicit_content: explicit,
        url: perma_url,
        song_count: parse_optional_i32(list_count),
        artists,
        image: image_links,
        songs: map_optional_songs(list),
    }
}

/// A playlist request: how it names the playlist, the page, and how many songs at most.
#[derive(Debug)]
pub struct PlaylistRequest {
    pub lookup: Lookup,
    pub page: i32,
    pub limit: usize,
}

/// The playlist request that `query` makes: address first, then id (neither is a bad
/// request); page 0 and 10 songs unless given.
pub fn playlist_request_of(query: PlaylistQuery) -> (r: Result<PlaylistRequest, ApiError>)
    ensures
        match (query.link, query.id) {
            (None, None) => r == Err::<PlaylistRequest, ApiError>(ApiError::BadRequest),
            (link, id) => r matches Ok(req) && {
                &&& req.lookup == match link {
                    Some(l) => Lookup::Link(l),
                    None => Lookup::Id(id->Some_0),
                }
                &&& req.page == match query.page { Some(p) => p, None => 0i32 }
                &&& req.limit == match query.limit { Some(l) => l, None => 10usize }
            },
        },
{
    let page = page_or_default(query.page);
    let limit = limit_or_default(query.limit);
    match choose_lookup(query.id, query.link) {
        Ok(lookup) => Ok(PlaylistRequest { lookup, page, limit }),
        Err(e) => Err(e),
    }
}

/// The call for up to `limit` songs of page `page` of the playlist `playlist_id`.
pub fn playlist_by_id_request(playlist_id: &str, page: i32, limit: usize) -> (r: FetchRequest)
    ensures
        request_is(
            r,
            calls::playlists::ID@,
            seq![("listid"@, playlist_id@), ("n"@, decimal_repr(limit as nat)), ("p"@, i32_repr(page))],
            None,
        ),
{
    let mut params: Vec<(String, String)> = Vec::new();
    params.push(param("listid", String::from_str(playlist_id)));
    params.push(param("n", usize_to_string(limit)));
    params.push(param("p", i32_to_string(page)));
    let r = FetchRequest { call: String::from_str(calls::playlists::ID), params, context: None };
    assert(pairs_view(r.params@) =~= seq![
        ("listid"@, playlist_id@),
        ("n"@, decimal_repr(limit as nat)),
        ("p"@, i32_repr(page)),
    ]);
    r
}

/// The call for up to `limit` songs of page `page` of the playlist at the address `link`;
/// a bad request when the address has no token (see `playlist_token_spec`).
pub fn playlist_by_link_request(link: &str, page: i32, limit: usize) -> (r: Result<FetchRequest, ApiError>)
    ensures
        match playlist_token_spec(link@) {
            Some(t) => r matches Ok(req) && request_is(
                req,
                "webapi.get"@,
                seq![("token"@, t), ("type"@, "playlist"@), ("n"@, decimal_repr(limit as nat)), ("p"@, i32_repr(page))],
                None,
            ),
            None => r == Err::<FetchRequest, ApiError>(ApiError::BadRequest),
        },
{
    match playlist_link_token(link) {
        Some(token) => {
            let mut extra: Vec<(String, String)> = Vec::new();
            extra.push(param("n", usize_to_string(limit)));
            extra.push(param("p", i32_to_string(page)));
            assert(pairs_view(extra@) =~= seq![("n"@, decimal_repr(limit as nat)), ("p"@, i32_repr(page))]);
            let r = token_request(token, "playlist", extra);
            assert(seq![("token"@, token@), ("type"@, "playlist"@)] + seq![("n"@, decimal_repr(limit as nat)), ("p"@, i32_repr(page))]
                =~= seq![("token"@, token@), ("type"@, "playlist"@), ("n"@, decimal_repr(limit as nat)), ("p"@, i32_repr(page))]);
            Ok(r)
        },
        None => Err(ApiError::BadRequest),
    }
}

/// `out` is the page of `raw` that a playlist request with `limit` answers with: `raw` in
/// the service's form, except that when it lists songs, the song count is their number
/// and only the first `limit` of them are kept.
pub open spec fn playlist_page_mapped(raw: RawPlaylist, limit: usize, out: Playlist) -> bool {
    &&& playlist_details_mapped(raw, out)
    &&& match raw.list {
        None => out.song_count == parse_opt_i32(raw.list_count) && out.songs is None,
        Some(list) => {
            let n = if list@.len() < limit { list@.len() as int } else { limit as int };
            &&& out.song_count == Some(list@.len() as i32)
            &&& out.songs matches Some(songs) && {
                &&& songs@.len() == n
                &&& forall|k: int| 0 <= k < n ==> song_mapped(#[trigger] list@[k], songs@[k])
            }
        },
    }
}

/// The playlist of the catalogue's answer (`None`: the call failed): an error when the
/// call failed; not found when the answer has an empty id; else its page (see
/// `playlist_page_mapped`).
pub fn playlist_from_response(result: Option<RawPlaylist>, limit: usize) -> (r: Result<Playlist, ApiError>)
    ensures
        match result {
            None => r == Err::<Playlist, ApiError>(ApiError::InternalServerError),
            Some(raw) => if raw.id@.len() == 0 {
                r == Err::<Playlist, ApiError>(ApiError::NotFound)
            } else {
                r matches Ok(pl) && playlist_page_mapped(raw, limit, pl)
            },
        },
{
    let raw = match result {
        None => return Err(ApiError::InternalServerError),
        Some(raw) => raw,
    };
    if raw.id.as_str().is_empty() {
        return Err(ApiError::NotFound);
    }
    let ghost given = raw;
    let Playlist {
        id, name, description, item_type, year, play_count, language, explicit_content, url, song_count,
        artists, image, songs,
    } = map_playlist(raw);
    let (song_count, songs) = match songs {
        Some(mut list) => {
            let count = list.len() as i32;
            list.truncate(limit);
            (Some(count), Some(list))
        },
        None => (song_count, None),
    };
    Ok(Playlist {
        id, name, description, item_type, year, play_count, language, explicit_content, url, song_count,
        artists, image, songs,
    })
}

/// The answer to a playlist request that gives neither an id nor an address.
pub fn playlist_missing_parameters() -> (r: Failure)
    ensures
        failure_is(r, 400u16, "Either playlist ID or link is required"@),
{
    missing_parameters("Either playlist ID or link is required")
}

/// The answer to a failed playlist request.
pub fn playlist_failure(e: ApiError) -> (r: Failure)
    ensures
        failure_is(r, status_of(e), lookup_message(e, "Playlist not found"@)),
{
    lookup_failure(e, "Playlist not found")
}

// --- Laws ---

/// Law: a playlist keeps the catalogue's identity and texts. Its id, name, description,
/// type, language and address are the catalogue's `id`, `title`, `header_desc`, `type`,
/// `language` and `perma_url`; its year and play count are the catalogue's numerals read
/// as numbers; it is explicit exactly when the catalogue's flag is `"1"`; it lists artists
/// exactly when `more_info` lists them, each in the service's form.
pub proof fn law_playlist_fields(raw: RawPlaylist, out: Playlist)
    requires
        playlist_details_mapped(raw, out),
    ensures
        out.id == raw.id,
        out.name == raw.title,
        out.description == raw.header_desc,
        out.item_type == raw.item_type,
        out.language == raw.language,
        out.url == raw.perma_url,
        out.year == (match raw.year { Some(n) => parse_i32_spec(n@), None => None }),
        out.play_count == (match raw.play_count { Some(n) => parse_i32_spec(n@), None => None }),
        out.explicit_content == (raw.explicit_content matches Some(f) && f@ == "1"@),
        links_view(out.image@) == image_links_spec(raw.image@),
        raw.more_info is None ==> out.artists is None,
        raw.more_info matches Some(m) ==> (m.artists is None <==> out.artists is None),
        raw.more_info matches Some(m) ==> (m.artists matches Some(v) ==> (out.artists matches Some(o) && artists_mapped(v@, o@))),
{
}

/// Law: a mapped playlist's song count is the catalogue's `list_count` read as a number,
/// and it lists songs exactly when the catalogue does, each in the service's form.
pub proof fn law_playlist_songs(raw: RawPlaylist, out: Playlist)
    requires
        playlist_mapped(raw, out),
    ensures
        out.song_count == (match raw.list_count { Some(n) => parse_i32_spec(n@), None => None }),
        raw.list is None <==> out.songs is None,
        raw.list matches Some(l) ==> (out.songs matches Some(o) && songs_mapped(l@, o@)),
{
}

/// Law: the page a playlist request answers with counts the songs the catalogue lists
/// (the catalogue's `list_count` when it lists none) and keeps the first `limit` of them,
/// in order.
pub proof fn law_playlist_page(raw: RawPlaylist, limit: usize, out: Playlist)
    requires
        playlist_page_mapped(raw, limit, out),
    ensures
        raw.list is None ==> out.songs is None
            && out.song_count == (match raw.list_count { Some(n) => parse_i32_spec(n@), None => None }),
        raw.list matches Some(l) ==> {
            &&& out.song_count == Some(l@.len() as i32)
            &&& out.songs matches Some(o) && {
                &&& o@.len() <= limit
                &&& o@.len() <= l@.len()
                &&& (o@.len() == limit || o@.len() == l@.len())
                &&& forall|k: int| 0 <= k < o@.len() ==> song_mapped(#[trigger] l@[k], o@[k])
            }
        },
{
}

} // verus!
