#![allow(non_snake_case)]
use vstd::prelude::*;
use crate::common::helpers::{create_image_links, image_links_spec, json_kept, json_parses, keep_json};
use crate::common::constants::calls;
use crate::common::links::{entity_link_token, entity_token_spec};
use crate::common::numbers::{i32_repr, i32_to_string, parse_i32_spec};
use crate::common::types::{
    choose_lookup, failure_is, failure_with, links_view, lookup_failure, lookup_message, missing_parameters,
    page_or_default, pairs_view, param, request_is, status_of, token_request, ApiError, DownloadLink, Failure,
    FetchRequest, Lookup,
};
use crate::modules::albums::{albums_mapped, map_album_list, Album, RawAlbum};
use crate::modules::songs::{
    map_song_list, parse_opt_i32, parse_optional_i32, songs_mapped, text_or_empty, RawSong, Song,
};

verus! {

/// An artist as the catalogue describes it.
#[derive(Debug)]
pub struct RawArtist {
    pub artistId: Option<String>,
    pub id: Option<String>,
    pub name: String,
    pub urls: Option<RawArtistUrls>,
    pub perma_url: Option<String>,
    pub item_type: String,
    pub follower_count: Option<String>,
    pub fan_count: Option<String>,
    pub isVerified: Option<bool>,
    pub dominantLanguage: Option<String>,
    pub dominantType: Option<String>,
    pub bio: Option<String>,
    pub dob: Option<String>,
    pub fb: Option<String>,
    pub twitter: Option<String>,
    pub wiki: Option<String>,
    pub availableLanguages: Option<Vec<String>>,
    pub isRadioPresent: Option<bool>,
    pub image: String,
    pub topSongs: Option<Vec<RawSong>>,
    pub topAlbums: Option<Vec<RawAlbum>>,
    pub singles: Option<Vec<RawSong>>,
    pub similarArtists: Option<Vec<RawSimilarArtist>>,
}

/// The addresses of an artist's pages.
#[derive(Debug)]
pub struct RawArtistUrls {
    pub overview: Option<String>,
}

/// An artist related to another, as the catalogue describes it.
#[derive(Debug)]
pub struct RawSimilarArtist {
    pub id: String,
    pub name: String,
    pub perma_url: String,
    pub image_url: String,
    pub languages: Option<String>,
    pub wiki: Option<String>,
    pub dob: Option<String>,
    pub fb: Option<String>,
    pub twitter: Option<String>,
    pub is_radio_present: Option<bool>,
    pub item_type: String,
    pub dominantType: Option<String>,
    pub aka: Option<String>,
    pub bio: Option<String>,
    pub similar: Option<String>,
}

/// The answer to a request for an artist's songs.
#[derive(Debug)]
pub struct RawArtistSongsWrapper {
    pub top_songs: RawTopSongs,
}

/// A page of an artist's songs.
#[derive(Debug)]
pub struct RawTopSongs {
    pub total: i32,
    pub songs: Vec<RawSong>,
}

/// The answer to a request for an artist's albums.
#[derive(Debug)]
pub struct RawArtistAlbumsWrapper {
    pub top_albums: RawTopAlbums,
}

/// A page of an artist's albums.
#[derive(Debug)]
pub struct RawTopAlbums {
    pub total: i32,
    pub albums: Vec<RawAlbum>,
}

/// An artist related to another. The fields `languages`, `bio` and `similar_artists`
/// hold JSON text, present only when the catalogue's text parses as JSON.
#[derive(Debug)]
pub struct SimilarArtist {
    pub id: String,
    pub name: String,
    pub url: String,
    pub image: Vec<DownloadLink>,
    pub languages: Option<String>,
    pub wiki: Option<String>,
    pub dob: Option<String>,
    pub fb: Option<String>,
    pub twitter: Option<String>,
    pub is_radio_present: Option<bool>,
    pub item_type: String,
    pub dominant_type: Option<String>,
    pub aka: Option<String>,
    pub bio: Option<String>,
    pub similar_artists: Option<String>,
}

/// An artist. The field `bio` holds JSON text, present only when the catalogue's text
/// parses as JSON.
#[derive(Debug)]
pub struct Artist {
    pub id: String,
    pub name: String,
    pub url: String,
    pub item_type: String,
    pub follower_count: Option<i32>,
    pub fan_count: Option<String>,
    pub is_verified: Option<bool>,
    pub dominant_language: Option<String>,
    pub dominant_type: Option<String>,
    pub bio: Option<String>,
    pub dob: Option<String>,
    pub fb: Option<String>,
    pub twitter: Option<String>,
    pub wiki: Option<String>,
    pub available_languages: Option<Vec<String>>,
    pub is_radio_present: Option<bool>,
    pub image: Vec<DownloadLink>,
    pub top_songs: Option<Vec<Song>>,
    pub top_albums: Option<Vec<Album>>,
    pub singles: Option<Vec<Song>>,
    pub similar_artists: Option<Vec<SimilarArtist>>,
}

/// A page of an artist's songs.
#[derive(Debug)]
pub struct ArtistSongs {
    pub total: i32,
    pub songs: Vec<Song>,
}

/// A page of an artist's albums.
#[derive(Debug)]
pub struct ArtistAlbums {
    pub total: i32,
    pub albums: Vec<Album>,
}

/// The parameters of an artist request.
#[derive(Debug)]
pub struct ArtistQuery {
    pub id: Option<String>,
    pub link: Option<String>,
    pub page: Option<i32>,
    pub song_count: Option<i32>,
    pub album_count: Option<i32>,
    pub sort_by: Option<String>,
    pub sort_order: Option<String>,
}

/// The parameters of a request for an artist's details, songs or albums by id.
#[derive(Debug)]
pub struct ArtistSubQuery {
    pub page: Option<i32>,
    pub sort_by: Option<String>,
    pub sort_order: Option<String>,
}

/// `out` is `raw` in the service's form.
pub open spec fn similar_artist_mapped(raw: RawSimilarArtist, out: SimilarArtist) -> bool {
    &&& out.id == raw.id
    &&& out.name == raw.name
    &&& out.url == raw.perma_url
    &&& links_view(out.image@) == image_links_spec(raw.image_url@)
    &&& json_kept(raw.languages, out.languages)
    &&& out.wiki == raw.wiki
    &&& out.dob == raw.dob
    &&& out.fb == raw.fb
    &&& out.twitter == raw.twitter
    &&& out.is_radio_present == raw.is_radio_present
    &&& out.item_type == raw.item_type
    &&& out.dominant_type == raw.dominantType
    &&& out.aka == raw.aka
    &&& json_kept(raw.bio, out.bio)
    &&& json_kept(raw.similar, out.similar_artists)
}

/// The text of the first present option, empty when both are absent.
pub open spec fn first_text(a: Option<String>, b: Option<String>) -> Seq<char> {
    match a {
        Some(s) => s@,
        None => text_or_empty(b),
    }
}

/// The overview address among an artist's page addresses.
pub open spec fn overview_of(urls: Option<RawArtistUrls>) -> Option<String> {
    match urls {
        Some(u) => u.overview,
        None => None,
    }
}

/// An optional list mapped element by element; absent exactly when `raws` is.
pub open spec fn optional_mapped<A, B>(raws: Option<Vec<A>>, outs: Option<Vec<B>>, rel: spec_fn(Seq<A>, Seq<B>) -> bool) -> bool {
    match (raws, outs) {
        (Some(r), Some(o)) => rel(r@, o@),
        (None, None) => true,
        _ => false,
    }
}

/// `outs` is `raws`, element by element, in the service's form.
pub open spec fn similar_artists_mapped(raws: Seq<RawSimilarArtist>, outs: Seq<SimilarArtist>) -> bool {
    &&& outs.len() == raws.len()
    &&& forall|i: int| 0 <= i < raws.len() ==> similar_artist_mapped(#[trigger] raws[i], outs[i])
}

/// `out` is `raw` in the service's form: the id is `artistId`, else `id`, else empty; the
/// address is the overview page, else `perma_url`, else empty.
pub open spec fn artist_mapped(raw: RawArtist, out: Artist) -> bool {
    &&& out.id@ == first_text(raw.artistId, raw.id)
    &&& out.name == raw.name
    &&& out.url@ == first_text(overview_of(raw.urls), raw.perma_url)
    &&& out.item_type == raw.item_type
    &&& out.follower_count == parse_opt_i32(raw.follower_count)
    &&& out.fan_count == raw.fan_count
    &&& out.is_verified == raw.isVerified
    &&& out.dominant_language == raw.dominantLanguage
    &&& out.dominant_type == raw.dominantType
    &&& json_kept(raw.bio, out.bio)
    &&& out.dob == raw.dob
    &&& out.fb == raw.fb
    &&& out.twitter == raw.twitter
    &&& out.wiki == raw.wiki
    &&& out.available_languages == raw.availableLanguages
    &&& out.is_radio_present == raw.isRadioPresent
    &&& links_view(out.image@) == image_links_spec(raw.image@)
    &&& optional_mapped(raw.topSongs, out.top_songs, |r: Seq<RawSong>, o: Seq<Song>| songs_mapped(r, o))
    &&& optional_mapped(raw.topAlbums, out.top_albums, |r: Seq<RawAlbum>, o: Seq<Album>| albums_mapped(r, o))
    &&& optional_mapped(raw.singles, out.singles, |r: Seq<RawSong>, o: Seq<Song>| songs_mapped(r, o))
    &&& optional_mapped(raw.similarArtists, out.similar_artists,
        |r: Seq<RawSimilarArtist>, o: Seq<SimilarArtist>| similar_artists_mapped(r, o))
}

/// A related artist in the service's form.
pub fn map_similar_artist(raw: RawSimilarArtist) -> (r: SimilarArtist)
    ensures
        similar_artist_mapped(raw, r),
{
    let image = create_image_links(raw.image_url.as_str());
    SimilarArtist {
        id: raw.id,
        name: raw.name,
        url: raw.perma_url,
        image,
        languages: keep_json(raw.languages),
        wiki: raw.wiki,
        dob: raw.dob,
        fb: raw.fb,
        twitter: raw.twitter,
        is_radio_present: raw.is_radio_present,
        item_type: raw.item_type,
        dominant_type: raw.dominantType,
        aka: raw.aka,
        bio: keep_json(raw.bio),
        similar_artists: keep_json(raw.similar),
    }
}

fn map_similar_artist_list(raws: Vec<RawSimilarArtist>) -> (r: Vec<SimilarArtist>)
    ensures
        similar_artists_mapped(raws@, r@),
{
    let mut out: Vec<SimilarArtist> = Vec::new();
    let ghost items = raws@;
    for raw in it: raws.into_iter()
        invariant
            it.seq() == items,
            out@.len() == it.index(),
            forall|i: int| 0 <= i < it.index() ==> similar_artist_mapped(#[trigger] items[i], out@[i]),
    {
        out.push(map_similar_artist(raw));
    }
    out
}

/// The text of the first present option, empty when both are absent
/// (`a.or(b).unwrap_or_default()`).
fn first_present(a: Option<String>, b: Option<String>) -> (r: String)
    ensures
        r@ == first_text(a, b),
{
    match a {
        Some(s) => s,
        None => match b {
            Some(s) => s,
            None => String::new(),
        },
    }
}

/// An artist in the service's form.
pub fn map_artist(raw: RawArtist) -> (r: Artist)
    ensures
        artist_mapped(raw, r),
{
    let ghost given = raw;
    let RawArtist {
        artistId, id, name, urls, perma_url, item_type, follower_count, fan_count, isVerified,
        dominantLanguage, dominantType, bio, dob, fb, twitter, wiki, availableLanguages,
        isRadioPresent, image, topSongs, topAlbums, singles, similarArtists,
    } = raw;
    let artist_id = first_present(artistId, id);
    let overview = match urls {
        Some(u) => u.overview,
        None => None,
    };
    let url = first_present(overview, perma_url);
    let image_links = create_image_links(image.as_str());
    let top_songs = match topSongs {
        Some(l) => Some(map_song_list(l)),
        None => None,
    };
    let top_albums = match topAlbums {
        Some(l) => Some(map_album_list(l)),
        None => None,
    };
    let singles_out = match singles {
        Some(l) => Some(map_song_list(l)),
        None => None,
    };
    let similar = match similarArtists {
        Some(l) => Some(map_similar_artist_list(l)),
        None => None,
    };
    Artist {
        id: artist_id,
        name,
        url,
        item_type,
        follower_count: parse_optional_i32(follower_count),
        fan_count,
        is_verified: isVerified,
        dominant_language: dominantLanguage,
        dominant_type: dominantType,
        bio: keep_json(bio),
        dob,
        fb,
        twitter,
        wiki,
        available_languages: availableLanguages,
        is_radio_present: isRadioPresent,
        image: image_links,
        top_songs,
        top_albums,
        singles: singles_out,
        similar_artists: similar,
    }
}

/// The text of an optional string, `default` when absent.
pub open spec fn text_or(o: Option<String>, default: Seq<char>) -> Seq<char> {
    match o {
        Some(s) => s@,
        None => default,
    }
}

fn string_or(o: Option<String>, default: &str) -> (r: String)
    ensures
        r@ == text_or(o, default@),
{
    match o {
        Some(s) => s,
        None => String::from_str(default),
    }
}

/// An artist request: how it names the artist, the page, how many songs and albums,
/// and their sort field and order.
#[derive(Debug)]
pub struct ArtistRequest {
    pub lookup: Lookup,
    pub page: i32,
    pub song_count: i32,
    pub album_count: i32,
    pub sort_by: String,
    pub sort_order: String,
}

/// The artist request that `query` makes: address first, then id (neither is a bad
/// request); page 0, 10 songs, 10 albums, by popularity, ascending, unless given.
pub fn artist_request_of(query: ArtistQuery) -> (r: Result<ArtistRequest, ApiError>)
    ensures
        match (query.link, query.id) {
            (None, None) => r == Err::<ArtistRequest, ApiError>(ApiError::BadRequest),
            (link, id) => r matches Ok(req) && {
                &&& req.lookup == match link {
                    Some(l) => Lookup::Link(l),
                    None => Lookup::Id(id->Some_0),
                }
                &&& req.page == match query.page { Some(p) => p, None => 0i32 }
                &&& req.song_count == match query.song_count { Some(c) => c, None => 10i32 }
                &&& req.album_count == match query.album_count { Some(c) => c, None => 10i32 }
                &&& req.sort_by@ == text_or(query.sort_by, "popularity"@)
                &&& req.sort_order@ == text_or(query.sort_order, "asc"@)
            },
        },
{
    let page = page_or_default(query.page);
    let song_count = match query.song_count {
        Some(c) => c,
        None => 10,
    };
    let album_count = match query.album_count {
        Some(c) => c,
        None => 10,
    };
    let sort_by = string_or(query.sort_by, "popularity");
    let sort_order = string_or(query.sort_order, "asc");
    match choose_lookup(query.id, query.link) {
        Ok(lookup) => Ok(ArtistRequest { lookup, page, song_count, album_count, sort_by, sort_order }),
        Err(e) => Err(e),
    }
}

/// The page and sort of a request for an artist's details, songs or albums by id.
#[derive(Debug)]
pub struct ArtistListing {
    pub page: i32,
    pub sort_by: String,
    pub sort_order: String,
}

/// The listing that `query` asks for: page 0, by popularity, in `default_order`, unless given.
fn artist_listing_of(query: ArtistSubQuery, default_order: &str) -> (r: ArtistListing)
    ensures
        r.page == match query.page { Some(p) => p, None => 0i32 },
        r.sort_by@ == text_or(query.sort_by, "popularity"@),
        r.sort_order@ == text_or(query.sort_order, default_order@),
{
    ArtistListing {
        page: page_or_default(query.page),
        sort_by: string_or(query.sort_by, "popularity"),
        sort_order: string_or(query.sort_order, default_order),
    }
}

/// The request for the details of the artist `id` that `query` makes: 10 songs and 10
/// albums, page 0, by popularity, ascending, unless the page or sort is given.
pub fn artist_details_request_of(id: String, query: ArtistSubQuery) -> (r: ArtistRequest)
    ensures
        r.lookup == Lookup::Id(id),
        r.page == match query.page { Some(p) => p, None => 0i32 },
        r.song_count == 10i32,
        r.album_count == 10i32,
        r.sort_by@ == text_or(query.sort_by, "popularity"@),
        r.sort_order@ == text_or(query.sort_order, "asc"@),
{
    let listing = artist_listing_of(query, "asc");
    ArtistRequest {
        lookup: Lookup::Id(id),
        page: listing.page,
        song_count: 10,
        album_count: 10,
        sort_by: listing.sort_by,
        sort_order: listing.sort_order,
    }
}

/// The page and sort of a request for an artist's songs: page 0, by popularity,
/// descending, unless given.
pub fn artist_songs_listing_of(query: ArtistSubQuery) -> (r: ArtistListing)
    ensures
        r.page == match query.page { Some(p) => p, None => 0i32 },
        r.sort_by@ == text_or(query.sort_by, "popularity"@),
        r.sort_order@ == text_or(query.sort_order, "desc"@),
{
    artist_listing_of(query, "desc")
}

/// The page and sort of a request for an artist's albums: page 0, by popularity,
/// descending, unless given.
pub fn artist_albums_listing_of(query: ArtistSubQuery) -> (r: ArtistListing)
    ensures
        r.page == match query.page { Some(p) => p, None => 0i32 },
        r.sort_by@ == text_or(query.sort_by, "popularity"@),
        r.sort_order@ == text_or(query.sort_order, "desc"@),
{
    artist_listing_of(query, "desc")
}

/// The parameters that follow the artist's name in an artist request.
pub open spec fn artist_page_params(page: i32, song_count: i32, album_count: i32, sort_by: Seq<char>, sort_order: Seq<char>) -> Seq<(Seq<char>, Seq<char>)> {
    seq![
        ("n_song"@, i32_repr(song_count)),
        ("n_album"@, i32_repr(album_count)),
        ("page"@, i32_repr(page)),
        ("sort_order"@, sort_order),
        ("category"@, sort_by),
    ]
}

fn artist_page_param_list(page: i32, song_count: i32, album_count: i32, sort_by: &str, sort_order: &str) -> (r: Vec<(String, String)>)
    ensures
        pairs_view(r@) == artist_page_params(page, song_count, album_count, sort_by@, sort_order@),
{
    let mut params: Vec<(String, String)> = Vec::new();
    params.push(param("n_song", i32_to_string(song_count)));
    params.push(param("n_album", i32_to_string(album_count)));
    params.push(param("page", i32_to_string(page)));
    params.push(param("sort_order", String::from_str(sort_order)));
    params.push(param("category", String::from_str(sort_by)));
    assert(pairs_view(params@) =~= artist_page_params(page, song_count, album_count, sort_by@, sort_order@));
    params
}

/// The call for the artist `artist_id`, with a page of its songs and albums.
pub fn artist_by_id_request(
    artist_id: &str,
    page: i32,
    song_count: i32,
    album_count: i32,
    sort_by: &str,
    sort_order: &str,
) -> (r: FetchRequest)
    ensures
        request_is(
            r,
            calls::artists::ID@,
            seq![("artistId"@, artist_id@)] + artist_page_params(page, song_count, album_count, sort_by@, sort_order@),
            None,
        ),
{
    let mut params: Vec<(String, String)> = Vec::new();
    params.push(param("artistId", String::from_str(artist_id)));
    let ghost head = params@;
    let mut rest = artist_page_param_list(page, song_count, album_count, sort_by, sort_order);
    let ghost tail = rest@;
    params.append(&mut rest);
    let r = FetchRequest { call: String::from_str(calls::artists::ID), params, context: None };
    assert(pairs_view(r.params@) =~= pairs_view(head) + pairs_view(tail));
    assert(pairs_view(head) =~= seq![("artistId"@, artist_id@)]);
    r
}

/// The call for the artist at the address `link`, with a page of its songs and albums;
/// a bad request when `link` is not the address of an artist page.
pub fn artist_by_link_request(
    link: &str,
    page: i32,
    song_count: i32,
    album_count: i32,
    sort_by: &str,
    sort_order: &str,
) -> (r: Result<FetchRequest, ApiError>)
    ensures
        match entity_token_spec(link@, "artist"@) {
            Some(t) => r matches Ok(req) && request_is(
                req,
                "webapi.get"@,
                seq![("token"@, t), ("type"@, "artist"@)] + artist_page_params(page, song_count, album_count, sort_by@, sort_order@),
                None,
            ),
            None => r == Err::<FetchRequest, ApiError>(ApiError::BadRequest),
        },
{
    match entity_link_token(link, "artist") {
        Some(token) => {
            let rest = artist_page_param_list(page, song_count, album_count, sort_by, sort_order);
            Ok(token_request(token, "artist", rest))
        },
        None => Err(ApiError::BadRequest),
    }
}

/// The artist of the catalogue's answer (`None`: the call failed): an error when the call
/// failed; not found when the answer has an empty name; else the artist in the service's form.
pub fn artist_from_response(result: Option<RawArtist>) -> (r: Result<Artist, ApiError>)
    ensures
        match result {
            None => r == Err::<Artist, ApiError>(ApiError::InternalServerError),
            Some(raw) => if raw.name@.len() == 0 {
                r == Err::<Artist, ApiError>(ApiError::NotFound)
            } else {
                r matches Ok(artist) && artist_mapped(raw, artist)
            },
        },
{
    match result {
        None => Err(ApiError::InternalServerError),
        Some(raw) => {
            if raw.name.as_str().is_empty() {
                Err(ApiError::NotFound)
            } else {
                Ok(map_artist(raw))
            }
        },
    }
}

/// The parameters of a call for a page of an artist's songs or albums.
pub open spec fn artist_list_params(artist_id: Seq<char>, page: i32, sort_by: Seq<char>, sort_order: Seq<char>) -> Seq<(Seq<char>, Seq<char>)> {
    seq![
        ("artistId"@, artist_id),
        ("page"@, i32_repr(page)),
        ("sort_order"@, sort_order),
        ("category"@, sort_by),
    ]
}

fn artist_list_request(call: &str, artist_id: &str, page: i32, sort_by: &str, sort_order: &str) -> (r: FetchRequest)
    ensures
        request_is(r, call@, artist_list_params(artist_id@, page, sort_by@, sort_order@), None),
{
    let mut params: Vec<(String, String)> = Vec::new();
    params.push(param("artistId", String::from_str(artist_id)));
    params.push(param("page", i32_to_string(page)));
    params.push(param("sort_order", String::from_str(sort_order)));
    params.push(param("category", String::from_str(sort_by)));
    let r = FetchRequest { call: String::from_str(call), params, context: None };
    assert(pairs_view(r.params@) =~= artist_list_params(artist_id@, page, sort_by@, sort_order@));
    r
}

/// The call for a page of the songs of the artist `artist_id`.
pub fn artist_songs_request(artist_id: &str, page: i32, sort_by: &str, sort_order: &str) -> (r: FetchRequest)
    ensures
        request_is(r, calls::artists::SONGS@, artist_list_params(artist_id@, page, sort_by@, sort_order@), None),
{
    artist_list_request(calls::artists::SONGS, artist_id, page, sort_by, sort_order)
}

/// The call for a page of the albums of the artist `artist_id`.
pub fn artist_albums_request(artist_id: &str, page: i32, sort_by: &str, sort_order: &str) -> (r: FetchRequest)
    ensures
        request_is(r, calls::artists::ALBUMS@, artist_list_params(artist_id@, page, sort_by@, sort_order@), None),
{
    artist_list_request(calls::artists::ALBUMS, artist_id, page, sort_by, sort_order)
}

/// A page of an artist's songs from the catalogue's answer. `None`: the call failed (an
/// internal error); `Some(None)`: the answer holds no page of songs. No page, or a page
/// without songs, is not found; else the page's total and its songs in the service's form.
pub fn artist_songs_from_response(result: Option<Option<RawArtistSongsWrapper>>) -> (r: Result<ArtistSongs, ApiError>)
    ensures
        match result {
            None => r == Err::<ArtistSongs, ApiError>(ApiError::InternalServerError),
            Some(None) => r == Err::<ArtistSongs, ApiError>(ApiError::NotFound),
            Some(Some(w)) => if w.top_songs.songs@.len() == 0 {
                r == Err::<ArtistSongs, ApiError>(ApiError::NotFound)
            } else {
                r matches Ok(page) && page.total == w.top_songs.total && songs_mapped(w.top_songs.songs@, page.songs@)
            },
        },
{
    match result {
        None => Err(ApiError::InternalServerError),
        Some(None) => Err(ApiError::NotFound),
        Some(Some(wrapper)) => {
            if wrapper.top_songs.songs.len() == 0 {
                Err(ApiError::NotFound)
            } else {
                Ok(ArtistSongs {
                    total: wrapper.top_songs.total,
                    songs: map_song_list(wrapper.top_songs.songs),
                })
            }
        },
    }
}

/// A page of an artist's albums from the catalogue's answer. `None`: the call failed (an
/// internal error); `Some(None)`: the answer holds no page of albums. No page, or a page
/// without albums, is not found; else the page's total and its albums in the service's form.
pub fn artist_albums_from_response(result: Option<Option<RawArtistAlbumsWrapper>>) -> (r: Result<ArtistAlbums, ApiError>)
    ensures
        match result {
            None => r == Err::<ArtistAlbums, ApiError>(ApiError::InternalServerError),
            Some(None) => r == Err::<ArtistAlbums, ApiError>(ApiError::NotFound),
            Some(Some(w)) => if w.top_albums.albums@.len() == 0 {
                r == Err::<ArtistAlbums, ApiError>(ApiError::NotFound)
            } else {
                r matches Ok(page) && page.total == w.top_albums.total && albums_mapped(w.top_albums.albums@, page.albums@)
            },
        },
{
    match result {
        None => Err(ApiError::InternalServerError),
        Some(None) => Err(ApiError::NotFound),
        Some(Some(wrapper)) => {
            if wrapper.top_albums.albums.len() == 0 {
                Err(ApiError::NotFound)
            } else {
                Ok(ArtistAlbums {
                    total: wrapper.top_albums.total,
                    albums: map_album_list(wrapper.top_albums.albums),
                })
            }
        },
    }
}

/// The answer to an artist request that gives neither an id nor an address.
pub fn artist_missing_parameters() -> (r: Failure)
    ensures
        failure_is(r, 400u16, "Either artist ID or link is required"@),
{
    missing_parameters("Either artist ID or link is required")
}

/// The answer to a failed artist request (by id or by address).
pub fn artist_failure(e: ApiError) -> (r: Failure)
    ensures
        failure_is(r, status_of(e), lookup_message(e, "Artist not found"@)),
{
    lookup_failure(e, "Artist not found")
}

/// The answer to a failed request for an artist's details by its id: whatever the
/// failure, the message is that the artist is not found.
pub fn artist_by_id_failure(e: ApiError) -> (r: Failure)
    ensures
        failure_is(r, status_of(e), "Artist not found"@),
{
    failure_with(e, "Artist not found")
}

/// The answer to a failed request for an artist's songs.
pub fn artist_songs_failure(e: ApiError) -> (r: Failure)
    ensures
        failure_is(r, status_of(e), "Artist songs not found"@),
{
    failure_with(e, "Artist songs not found")
}

/// The answer to a failed request for an artist's albums.
pub fn artist_albums_failure(e: ApiError) -> (r: Failure)
    ensures
        failure_is(r, status_of(e), "Artist albums not found"@),
{
    failure_with(e, "Artist albums not found")
}

// --- Laws ---

/// Law: a related artist keeps the catalogue's id, name, page address, wiki, date of
/// birth, social links, radio flag, type, dominant type and alias (`id`, `name`,
/// `perma_url`, `wiki`, `dob`, `fb`, `twitter`, `is_radio_present`, `type`,
/// `dominantType`, `aka`); its image comes from `image_url`; its languages, bio and
/// related artists are the catalogue's `languages`, `bio` and `similar` texts, kept only
/// when they are JSON.
pub proof fn law_similar_artist_fields(raw: RawSimilarArtist, out: SimilarArtist)
    requires
        similar_artist_mapped(raw, out),
    ensures
        out.id == raw.id,
        out.name == raw.name,
        out.url == raw.perma_url,
        out.wiki == raw.wiki,
        out.dob == raw.dob,
        out.fb == raw.fb,
        out.twitter == raw.twitter,
        out.is_radio_present == raw.is_radio_present,
        out.item_type == raw.item_type,
        out.dominant_type == raw.dominantType,
        out.aka == raw.aka,
        links_view(out.image@) == image_links_spec(raw.image_url@),
        out.languages == (match raw.languages { Some(t) => if json_parses(t@) { Some(t) } else { None }, None => None }),
        out.bio == (match raw.bio { Some(t) => if json_parses(t@) { Some(t) } else { None }, None => None }),
        out.similar_artists == (match raw.similar { Some(t) => if json_parses(t@) { Some(t) } else { None }, None => None }),
{
}

/// Law: a list of related artists keeps its length and order.
pub proof fn law_similar_artist_list_order(raws: Seq<RawSimilarArtist>, outs: Seq<SimilarArtist>)
    requires
        similar_artists_mapped(raws, outs),
    ensures
        outs.len() == raws.len(),
        forall|i: int| 0 <= i < raws.len() ==> similar_artist_mapped(#[trigger] raws[i], outs[i]),
{
}

/// Law: an artist keeps the catalogue's details. Its id is `artistId`, else `id`, else
/// empty; its address is the overview page, else `perma_url`, else empty; its name, type,
/// fan count, verified flag, dominant language, dominant type, date of birth, social
/// links, wiki, languages and radio flag are the catalogue's `name`, `type`, `fan_count`,
/// `isVerified`, `dominantLanguage`, `dominantType`, `dob`, `fb`, `twitter`, `wiki`,
/// `availableLanguages` and `isRadioPresent`; its follower count is `follower_count` read
/// as a number; its bio is the catalogue's `bio` kept only when it is JSON; its image comes
/// from `image`. Its top songs, top albums, singles and related artists are present
/// exactly when the catalogue's are, each in the service's form.
pub proof fn law_artist_fields(raw: RawArtist, out: Artist)
    requires
        artist_mapped(raw, out),
    ensures
        out.id@ == (match raw.artistId {
            Some(a) => a@,
            None => match raw.id { Some(i) => i@, None => Seq::empty() },
        }),
        out.url@ == (match raw.urls {
            Some(u) if u.overview is Some => u.overview->Some_0@,
            _ => match raw.perma_url { Some(p) => p@, None => Seq::empty() },
        }),
        out.name == raw.name,
        out.item_type == raw.item_type,
        out.fan_count == raw.fan_count,
        out.is_verified == raw.isVerified,
        out.dominant_language == raw.dominantLanguage,
        out.dominant_type == raw.dominantType,
        out.dob == raw.dob,
        out.fb == raw.fb,
        out.twitter == raw.twitter,
        out.wiki == raw.wiki,
        out.available_languages == raw.availableLanguages,
        out.is_radio_present == raw.isRadioPresent,
        out.follower_count == (match raw.follower_count { Some(n) => parse_i32_spec(n@), None => None }),
        out.bio == (match raw.bio { Some(t) => if json_parses(t@) { Some(t) } else { None }, None => None }),
        links_view(out.image@) == image_links_spec(raw.image@),
        raw.topSongs is None <==> out.top_songs is None,
        raw.topSongs matches Some(l) ==> (out.top_songs matches Some(o) && songs_mapped(l@, o@)),
        raw.topAlbums is None <==> out.top_albums is None,
        raw.topAlbums matches Some(l) ==> (out.top_albums matches Some(o) && albums_mapped(l@, o@)),
        raw.singles is None <==> out.singles is None,
        raw.singles matches Some(l) ==> (out.singles matches Some(o) && songs_mapped(l@, o@)),
        raw.similarArtists is None <==> out.similar_artists is None,
        raw.similarArtists matches Some(l) ==> (out.similar_artists matches Some(o) && similar_artists_mapped(l@, o@)),
{
}

} // verus!
