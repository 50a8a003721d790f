#![allow(non_snake_case)]
use vstd::prelude::*;
use crate::common::constants::calls;
use crate::common::helpers::{
    create_download_links, create_image_links, download_links_spec, image_links_spec, station_entity,
    station_entity_id,
};
use crate::common::links::{entity_link_token, entity_token_spec};
use crate::common::numbers::{decimal_repr, parse_i32, parse_i32_spec, parse_usize, parse_usize_spec, usize_to_string};
use crate::common::sorting::{stable_sort_by_key, stably_sorted_as};
use crate::common::text::str_equals;
use crate::common::types::{
    choose_lookup, failure_is, failure_with, links_view, lookup_failure, lookup_message, missing_parameters, pairs_view,
    param, request_is, status_of, token_request, ApiError, DownloadLink, Failure, FetchRequest, Lookup,
};

verus! {

broadcast use vstd::string::group_string_axioms;

// --- Records of the catalogue's answers ---

/// A song as the catalogue describes it.
#[derive(Debug)]
pub struct RawSong {
    pub id: String,
    pub title: String,
    pub item_type: String,
    pub perma_url: String,
    pub image: String,
    pub language: String,
    pub year: Option<String>,
    pub play_count: Option<String>,
    pub explicit_content: Option<String>,
    pub more_info: Option<RawSongMoreInfo>,
}

/// The details of a song that the catalogue nests under `more_info`.
#[derive(Debug)]
pub struct RawSongMoreInfo {
    pub album_id: Option<String>,
    pub album: Option<String>,
    pub album_url: Option<String>,
    pub duration: Option<String>,
    pub label: Option<String>,
    pub encrypted_media_url: Option<String>,
    pub has_lyrics: Option<String>,
    pub lyrics_id: Option<String>,
    pub copyright_text: Option<String>,
    pub artistMap: Option<RawArtistMap>,
    pub release_date: Option<String>,
}

/// The artists of an item, by role.
#[derive(Debug)]
pub struct RawArtistMap {
    pub primary_artists: Option<Vec<RawArtistMini>>,
    pub featured_artists: Option<Vec<RawArtistMini>>,
    pub artists: Option<Vec<RawArtistMini>>,
}

/// An artist in brief, as the catalogue describes it.
#[derive(Debug)]
pub struct RawArtistMini {
    pub id: String,
    pub name: String,
    pub role: String,
    pub item_type: String,
    pub image: String,
    pub perma_url: String,
}

/// The answer to a song lookup.
#[derive(Debug)]
pub struct RawSongsWrapper {
    pub songs: Option<Vec<RawSong>>,
}

/// The answer to a station request.
#[derive(Debug)]
pub struct RawStationResponse {
    pub stationid: Option<String>,
}

/// One entry of a station's song list.
#[derive(Debug)]
pub struct RawSuggestionElement {
    pub song: RawSong,
}

// --- Records the service answers with ---

/// An artist in brief.
#[derive(Debug)]
pub struct ArtistMini {
    pub id: String,
    pub name: String,
    pub role: String,
    pub item_type: String,
    pub image: Vec<DownloadLink>,
    pub url: String,
}

/// The album a song belongs to.
#[derive(Debug)]
pub struct SongAlbum {
    pub id: Option<String>,
    pub name: Option<String>,
    pub url: Option<String>,
}

/// The artists of an item, by role.
#[derive(Debug)]
pub struct SongArtists {
    pub primary: Vec<ArtistMini>,
    pub featured: Vec<ArtistMini>,
    pub all: Vec<ArtistMini>,
}

/// A song.
#[derive(Debug)]
pub struct Song {
    pub id: String,
    pub name: String,
    pub item_type: String,
    pub year: Option<String>,
    pub release_date: Option<String>,
    pub duration: Option<i32>,
    pub label: Option<String>,
    pub explicit_content: bool,
    pub play_count: Option<i32>,
    pub language: String,
    pub has_lyrics: bool,
    pub lyrics_id: Option<String>,
    pub url: String,
    pub copyright: Option<String>,
    pub album: SongAlbum,
    pub artists: SongArtists,
    pub image: Vec<DownloadLink>,
    pub download_url: Vec<DownloadLink>,
}

// --- What the mappings compute ---

/// The text of an optional string, empty when absent.
pub open spec fn text_or_empty(o: Option<String>) -> Seq<char> {
    match o {
        Some(s) => s@,
        None => Seq::empty(),
    }
}

/// An optional numeral read as an `i32`; absent when missing or unreadable.
pub open spec fn parse_opt_i32(o: Option<String>) -> Option<i32> {
    match o {
        Some(s) => parse_i32_spec(s@),
        None => None,
    }
}

/// The catalogue's flag: present and equal to `expected`.
pub open spec fn flag_is(o: Option<String>, expected: Seq<char>) -> bool {
    match o {
        Some(s) => s@ == expected,
        None => false,
    }
}

/// The elements of an optional list, none when absent.
pub open spec fn list_or_empty<T>(o: Option<Vec<T>>) -> Seq<T> {
    match o {
        Some(v) => v@,
        None => Seq::empty(),
    }
}

pub open spec fn song_more_info_or_empty(o: Option<RawSongMoreInfo>) -> RawSongMoreInfo {
    match o {
        Some(m) => m,
        None => RawSongMoreInfo {
            album_id: None,
            album: None,
            album_url: None,
            duration: None,
            label: None,
            encrypted_media_url: None,
            has_lyrics: None,
            lyrics_id: None,
            copyright_text: None,
            artistMap: None,
            release_date: None,
        },
    }
}

pub open spec fn artist_map_or_empty(o: Option<RawArtistMap>) -> RawArtistMap {
    match o {
        Some(m) => m,
        None => RawArtistMap { primary_artists: None, featured_artists: None, artists: None },
    }
}

/// `out` is `raw` in the service's form.
pub open spec fn artist_mini_mapped(raw: RawArtistMini, out: ArtistMini) -> bool {
    &&& out.id == raw.id
    &&& out.name == raw.name
    &&& out.role == raw.role
    &&& out.item_type == raw.item_type
    &&& links_view(out.image@) == image_links_spec(raw.image@)
    &&& out.url == raw.perma_url
}

/// `outs` is `raws`, element by element, in the service's form.
pub open spec fn artists_mapped(raws: Seq<RawArtistMini>, outs: Seq<ArtistMini>) -> bool {
    &&& outs.len() == raws.len()
    &&& forall|i: int| 0 <= i < raws.len() ==> artist_mini_mapped(#[trigger] raws[i], outs[i])
}

/// `out` holds the three artist lists of `map` (a missing list counting as empty).
pub open spec fn artist_map_mapped(map: Option<RawArtistMap>, out: SongArtists) -> bool {
    let m = artist_map_or_empty(map);
    &&& artists_mapped(list_or_empty(m.primary_artists), out.primary@)
    &&& artists_mapped(list_or_empty(m.featured_artists), out.featured@)
    &&& artists_mapped(list_or_empty(m.artists), out.all@)
}

/// `out` is `raw` in the service's form.
pub open spec fn song_mapped(raw: RawSong, out: Song) -> bool {
    let m = song_more_info_or_empty(raw.more_info);
    &&& out.id == raw.id
    &&& out.name == raw.title
    &&& out.item_type == raw.item_type
    &&& out.year == raw.year
    &&& out.release_date == m.release_date
    &&& out.duration == parse_opt_i32(m.duration)
    &&& out.label == m.label
    &&& out.explicit_content == flag_is(raw.explicit_content, "1"@)
    &&& out.play_count == parse_opt_i32(raw.play_count)
    &&& out.language == raw.language
    &&& out.has_lyrics == flag_is(m.has_lyrics, "true"@)
    &&& out.lyrics_id == m.lyrics_id
    &&& out.url == raw.perma_url
    &&& out.copyright == m.copyright_text
    &&& out.album.id == m.album_id
    &&& out.album.name == m.album
    &&& out.album.url == m.album_url
    &&& artist_map_mapped(m.artistMap, out.artists)
    &&& links_view(out.image@) == image_links_spec(raw.image@)
    &&& links_view(out.download_url@) == download_links_spec(text_or_empty(m.encrypted_media_url))
}

/// `outs` is `raws`, element by element, in the service's form.
pub open spec fn songs_mapped(raws: Seq<RawSong>, outs: Seq<Song>) -> bool {
    &&& outs.len() == raws.len()
    &&& forall|i: int| 0 <= i < raws.len() ==> song_mapped(#[trigger] raws[i], outs[i])
}

// --- Field helpers ---

/// An optional numeral read as an `i32` (`and_then(|s| s.parse().ok())`).
pub fn parse_optional_i32(o: Option<String>) -> (r: Option<i32>)
    ensures
        r == parse_opt_i32(o),
{
    match o {
        Some(s) => parse_i32(s.as_str()),
        None => None,
    }
}

/// Whether an optional flag is present and equal to `expected`.
pub fn optional_flag_is(o: &Option<String>, expected: &str) -> (r: bool)
    ensures
        r == flag_is(*o, expected@),
{
    match o {
        Some(s) => str_equals(s.as_str(), expected),
        None => false,
    }
}

// --- Mappings ---

/// An artist in brief, in the service's form.
pub fn map_artist_mini(raw: RawArtistMini) -> (r: ArtistMini)
    ensures
        artist_mini_mapped(raw, r),
{
    let image = create_image_links(raw.image.as_str());
    ArtistMini {
        id: raw.id,
        name: raw.name,
        role: raw.role,
        item_type: raw.item_type,
        image,
        url: raw.perma_url,
    }
}

/// Every artist of the optional list, in the service's form; none when the list is absent.
pub fn map_artist_list(raws: Option<Vec<RawArtistMini>>) -> (r: Vec<ArtistMini>)
    ensures
        artists_mapped(list_or_empty(raws), r@),
{
    let mut out: Vec<ArtistMini> = Vec::new();
    match raws {
        None => {},
        Some(list) => {
            let ghost items = list@;
            for raw in it: list.into_iter()
                invariant
                    it.seq() == items,
                    out@.len() == it.index(),
                    forall|i: int| 0 <= i < it.index() ==> artist_mini_mapped(#[trigger] items[i], out@[i]),
            {
                out.push(map_artist_mini(raw));
            }
        },
    }
    out
}

/// The three artist lists of an optional artist map.
pub fn map_artist_map(map: Option<RawArtistMap>) -> (r: SongArtists)
    ensures
        artist_map_mapped(map, r),
{
    match map {
        Some(m) => SongArtists {
            primary: map_artist_list(m.primary_artists),
            featured: map_artist_list(m.featured_artists),
            all: map_artist_list(m.artists),
        },
        None => SongArtists {
            primary: map_artist_list(None),
            featured: map_artist_list(None),
            all: map_artist_list(None),
        },
    }
}

/// A song in the service's form.
pub fn map_song(raw: RawSong) -> (r: Song)
    ensures
        song_mapped(raw, r),
{
    let ghost given = raw;
    let RawSong { id, title, item_type, perma_url, image, language, year, play_count, explicit_content, more_info } = raw;
    let m = match more_info {
        Some(m) => m,
        None => RawSongMoreInfo {
            album_id: None,
            album: None,
            album_url: None,
            duration: None,
            label: None,
            encrypted_media_url: None,
            has_lyrics: None,
            lyrics_id: None,
            copyright_text: None,
            artistMap: None,
            release_date: None,
        },
    };
    assert(m == song_more_info_or_empty(given.more_info));
    let RawSongMoreInfo {
        album_id, album, album_url, duration, label, encrypted_media_url, has_lyrics, lyrics_id,
        copyright_text, artistMap, release_date,
    } = m;
    proof {
        reveal_strlit("1");
        reveal_strlit("true");
    }
    let explicit = optional_flag_is(&explicit_content, "1");
    let lyrics = optional_flag_is(&has_lyrics, "true");
    let image_links = create_image_links(image.as_str());
    let download = match encrypted_media_url {
        Some(u) => create_download_links(u.as_str()),
        None => create_download_links(""),
    };
    proof {
        reveal_strlit("");
    }
    Song {
        id,
        name: title,
        item_type,
        year,
        release_date,
        duration: parse_optional_i32(duration),
        label,
        explicit_content: explicit,
        play_count: parse_optional_i32(play_count),
        language,
        has_lyrics: lyrics,
        lyrics_id,
        url: perma_url,
        copyright: copyright_text,
        album: SongAlbum { id: album_id, name: album, url: album_url },
        artists: map_artist_map(artistMap),
        image: image_links,
        download_url: download,
    }
}

/// Every song of the list, in the service's form.
pub fn map_song_list(raws: Vec<RawSong>) -> (r: Vec<Song>)
    ensures
        songs_mapped(raws@, r@),
{
    let mut out: Vec<Song> = Vec::new();
    let ghost items = raws@;
    for raw in it: raws.into_iter()
        invariant
            it.seq() == items,
            out@.len() == it.index(),
            forall|i: int| 0 <= i < it.index() ==> song_mapped(#[trigger] items[i], out@[i]),
    {
        out.push(map_song(raw));
    }
    out
}

// --- Requests and their answers ---

/// The parameters of a song request: a comma-separated list of ids, or a song's address.
#[derive(Debug)]
pub struct SongsQuery {
    pub ids: Option<String>,
    pub link: Option<String>,
}

/// The parameters of a suggestions request.
#[derive(Debug)]
pub struct SuggestionsQuery {
    pub limit: Option<usize>,
}

/// How a song request names its songs: by address when it gives one, else by ids;
/// a request that gives neither is a bad request.
pub fn songs_lookup(query: SongsQuery) -> (r: Result<Lookup, ApiError>)
    ensures
        match (query.link, query.ids) {
            (Some(link), _) => r == Ok::<Lookup, ApiError>(Lookup::Link(link)),
            (None, Some(ids)) => r == Ok::<Lookup, ApiError>(Lookup::Id(ids)),
            (None, None) => r == Err::<Lookup, ApiError>(ApiError::BadRequest),
        },
{
    choose_lookup(query.ids, query.link)
}

/// The call for the songs with the comma-separated `ids`.
pub fn songs_by_ids_request(ids: &str) -> (r: FetchRequest)
    ensures
        request_is(r, calls::songs::ID@, seq![("pids"@, ids@)], None),
{
    let mut params: Vec<(String, String)> = Vec::new();
    params.push(param("pids", String::from_str(ids)));
    let r = FetchRequest { call: String::from_str(calls::songs::ID), params, context: None };
    assert(pairs_view(r.params@) =~= seq![("pids"@, ids@)]);
    r
}

/// The call for the song at the address `link`; a bad request when `link` is not the
/// address of a song page.
pub fn songs_by_link_request(link: &str) -> (r: Result<FetchRequest, ApiError>)
    ensures
        match entity_token_spec(link@, "song"@) {
            Some(t) => r matches Ok(req) && request_is(req, "webapi.get"@, seq![("token"@, t), ("type"@, "song"@)], None),
            None => r == Err::<FetchRequest, ApiError>(ApiError::BadRequest),
        },
{
    match entity_link_token(link, "song") {
        Some(token) => {
            let none: Vec<(String, String)> = Vec::new();
            assert(pairs_view(none@) =~= Seq::empty());
            let r = token_request(token, "song", none);
            Ok(r)
        },
        None => Err(ApiError::BadRequest),
    }
}

/// The songs of the catalogue's answer (`None`: the call failed): an error when the call
/// failed; not found when the answer lists no songs; else every song in the service's form.
pub fn songs_from_response(result: Option<RawSongsWrapper>) -> (r: Result<Vec<Song>, ApiError>)
    ensures
        match result {
            None => r == Err::<Vec<Song>, ApiError>(ApiError::InternalServerError),
            Some(w) => match w.songs {
                Some(list) if list@.len() > 0 => r matches Ok(songs) && songs_mapped(list@, songs@),
                _ => r == Err::<Vec<Song>, ApiError>(ApiError::NotFound),
            },
        },
{
    match result {
        None => Err(ApiError::InternalServerError),
        Some(wrapper) => match wrapper.songs {
            Some(songs) => {
                if songs.len() == 0 {
                    Err(ApiError::NotFound)
                } else {
                    Ok(map_song_list(songs))
                }
            },
            None => Err(ApiError::NotFound),
        },
    }
}

/// The call that creates a radio station seeded with the song `song_id`.
pub fn station_request(song_id: &str) -> (r: FetchRequest)
    ensures
        request_is(
            r,
            calls::songs::STATION@,
            seq![("entity_id"@, station_entity_id(song_id@)), ("entity_type"@, "queue"@)],
            Some("android"@),
        ),
{
    let mut params: Vec<(String, String)> = Vec::new();
    params.push(param("entity_id", station_entity(song_id)));
    params.push(param("entity_type", String::from_str("queue")));
    let r = FetchRequest {
        call: String::from_str(calls::songs::STATION),
        params,
        context: Some(String::from_str("android")),
    };
    assert(pairs_view(r.params@) =~= seq![
        ("entity_id"@, station_entity_id(song_id@)),
        ("entity_type"@, "queue"@),
    ]);
    r
}

/// The id of the station that the catalogue created; an error when the call failed or the
/// answer holds no station id.
pub fn station_from_response(result: Option<RawStationResponse>) -> (r: Result<String, ApiError>)
    ensures
        match result {
            Some(RawStationResponse { stationid: Some(id) }) => r == Ok::<String, ApiError>(id),
            _ => r == Err::<String, ApiError>(ApiError::InternalServerError),
        },
{
    match result {
        Some(res) => match res.stationid {
            Some(id) => Ok(id),
            None => Err(ApiError::InternalServerError),
        },
        None => Err(ApiError::InternalServerError),
    }
}

/// The call for up to `limit` songs of the station `station_id`.
pub fn suggestions_request(station_id: String, limit: usize) -> (r: FetchRequest)
    ensures
        request_is(
            r,
            calls::songs::SUGGESTIONS@,
            seq![("stationid"@, station_id@), ("k"@, decimal_repr(limit as nat))],
            Some("android"@),
        ),
{
    let ghost id = station_id@;
    let mut params: Vec<(String, String)> = Vec::new();
    params.push(param("stationid", station_id));
    params.push(param("k", usize_to_string(limit)));
    let r = FetchRequest {
        call: String::from_str(calls::songs::SUGGESTIONS),
        params,
        context: Some(String::from_str("android")),
    };
    assert(pairs_view(r.params@) =~= seq![
        ("stationid"@, id),
        ("k"@, decimal_repr(limit as nat)),
    ]);
    r
}

/// The position a station entry's key gives it: the key read as a number, or the last
/// position when it is not one.
pub open spec fn suggestion_position(key: Seq<char>) -> usize {
    match parse_usize_spec(key) {
        Some(n) => n,
        None => usize::MAX,
    }
}

/// The songs among a station's entries (key, song or `None` where the entry is no song),
/// with their positions, in the order of the entries; the `stationid` entry is skipped.
pub open spec fn suggestion_candidates(entries: Seq<(String, Option<RawSuggestionElement>)>) -> Seq<(usize, RawSong)>
    decreases entries.len(),
{
    if entries.len() == 0 {
        seq![]
    } else {
        let rest = suggestion_candidates(entries.drop_last());
        let e = entries.last();
        match e.1 {
            Some(elem) => if e.0@ != "stationid"@ {
                rest.push((suggestion_position(e.0@), elem.song))
            } else {
                rest
            },
            None => rest,
        }
    }
}

/// The songs of a station's entries, ordered by position (entries with equal positions in
/// their given order), at most `limit` of them, each in the service's form.
pub open spec fn suggestions_ordered(
    entries: Seq<(String, Option<RawSuggestionElement>)>,
    limit: usize,
    out: Seq<Song>,
) -> bool {
    let candidates = suggestion_candidates(entries);
    let n = if candidates.len() < limit { candidates.len() as int } else { limit as int };
    exists|sorted: Seq<(usize, RawSong)>, p: Seq<int>| {
        &&& stably_sorted_as(candidates, sorted, p)
        &&& out.len() == n
        &&& forall|k: int| 0 <= k < n ==> song_mapped(#[trigger] sorted[k].1, out[k])
    }
}

/// How many songs a suggestions answer with `entries` yields: its songs, at most `limit`.
pub open spec fn suggestion_count(entries: Seq<(String, Option<RawSuggestionElement>)>, limit: usize) -> int {
    let candidates = suggestion_candidates(entries);
    if candidates.len() < limit { candidates.len() as int } else { limit as int }
}

/// The station's songs from the catalogue's answer, given as its entries in the order
/// the answer lists them. `None`: the call failed (an internal error); `Some(None)`: the
/// answer is not an object of entries. No songs (also when the answer is not such an
/// object) is not found; else the songs ordered by their numeric keys, at most `limit` of them.
pub fn suggestions_from_response(
    entries: Option<Option<Vec<(String, Option<RawSuggestionElement>)>>>,
    limit: usize,
) -> (r: Result<Vec<Song>, ApiError>)
    ensures
        match entries {
            None => r == Err::<Vec<Song>, ApiError>(ApiError::InternalServerError),
            Some(None) => r == Err::<Vec<Song>, ApiError>(ApiError::NotFound),
            Some(Some(list)) => if suggestion_count(list@, limit) == 0 {
                r == Err::<Vec<Song>, ApiError>(ApiError::NotFound)
            } else {
                r matches Ok(songs) && suggestions_ordered(list@, limit, songs@)
            },
        },
{
    let list = match entries {
        Some(Some(list)) => list,
        Some(None) => return Err(ApiError::NotFound),
        None => return Err(ApiError::InternalServerError),
    };
    let ghost all = list@;
    let mut candidates: Vec<(usize, RawSong)> = Vec::new();
    proof {
        reveal_strlit("stationid");
    }
    for entry in it: list.into_iter()
        invariant
            it.seq() == all,
            candidates@ == suggestion_candidates(all.take(it.index() as int)),
    {
        let ghost i = it.index() as int;
        assert(all.take(i + 1).drop_last() =~= all.take(i));
        assert(all.take(i + 1).last() == all[i]);
        let (key, value) = entry;
        match value {
            Some(elem) => {
                if !str_equals(key.as_str(), "stationid") {
                    let position = match parse_usize(key.as_str()) {
                        Some(n) => n,
                        None => usize::MAX,
                    };
                    candidates.push((position, elem.song));
                }
            },
            None => {},
        }
    }
    assert(all.take(all.len() as int) =~= all);
    let ghost cands = candidates@;
    let mut sorted = stable_sort_by_key(candidates);
    let ghost sorted_all = sorted@;
    sorted.truncate(limit);
    let ghost kept = sorted@;
    let mut songs: Vec<Song> = Vec::new();
    for e in it: sorted.into_iter()
        invariant
            it.seq() == kept,
            songs@.len() == it.index(),
            forall|k: int| 0 <= k < it.index() ==> song_mapped(#[trigger] kept[k].1, songs@[k]),
    {
        songs.push(map_song(e.1));
    }
    proof {
        let p = choose|p: Seq<int>| stably_sorted_as(cands, sorted_all, p);
        assert forall|k: int| 0 <= k < songs@.len() implies song_mapped(#[trigger] sorted_all[k].1, songs@[k]) by {
            assert(kept[k] == sorted_all[k]);
        }
        assert(stably_sorted_as(cands, sorted_all, p));
        assert(songs@.len() == suggestion_count(all, limit));
    }
    if songs.len() == 0 {
        return Err(ApiError::NotFound);
    }
    Ok(songs)
}

/// The answer to a song request that gives neither ids nor an address.
pub fn songs_missing_parameters() -> (r: Failure)
    ensures
        failure_is(r, 400u16, "Either song IDs or link is required"@),
{
    missing_parameters("Either song IDs or link is required")
}

/// The answer to a failed song request (by ids or by address).
pub fn songs_failure(e: ApiError) -> (r: Failure)
    ensures
        failure_is(r, status_of(e), lookup_message(e, "Song not found"@)),
{
    lookup_failure(e, "Song not found")
}

/// The answer to a failed request for a song by its id: whatever the failure, the message
/// is that the song is not found.
pub fn song_by_id_failure(e: ApiError) -> (r: Failure)
    ensures
        failure_is(r, status_of(e), "Song not found"@),
{
    failure_with(e, "Song not found")
}

/// The answer to a failed suggestions request.
pub fn suggestions_failure(e: ApiError) -> (r: Failure)
    ensures
        failure_is(r, status_of(e), "No suggestions found"@),
{
    failure_with(e, "No suggestions found")
}

// --- Laws ---

/// Law: an artist in brief keeps the catalogue's id, name, role, type and page address,
/// and offers the catalogue's image in every size.
pub proof fn law_artist_mini_fields(raw: RawArtistMini, out: ArtistMini)
    requires
        artist_mini_mapped(raw, out),
    ensures
        out.id == raw.id,
        out.name == raw.name,
        out.role == raw.role,
        out.item_type == raw.item_type,
        out.url == raw.perma_url,
        links_view(out.image@) == image_links_spec(raw.image@),
{
}

/// Law: a list of artists keeps its length and order: the i-th artist given is the
/// i-th artist listed by the catalogue.
pub proof fn law_artist_list_order(raws: Seq<RawArtistMini>, outs: Seq<ArtistMini>)
    requires
        artists_mapped(raws, outs),
    ensures
        outs.len() == raws.len(),
        forall|i: int| 0 <= i < raws.len() ==> artist_mini_mapped(#[trigger] raws[i], outs[i]),
{
}

/// Law: each artist role keeps its own list: the primary artists are the catalogue's
/// `primary_artists`, the featured ones its `featured_artists`, all of them its `artists`;
/// a missing map or list gives no artists in that role.
pub proof fn law_artist_roles(map: Option<RawArtistMap>, out: SongArtists)
    requires
        artist_map_mapped(map, out),
    ensures
        map is None ==> out.primary@.len() == 0 && out.featured@.len() == 0 && out.all@.len() == 0,
        map matches Some(m) ==> (m.primary_artists is None ==> out.primary@.len() == 0),
        map matches Some(m) ==> (m.featured_artists is None ==> out.featured@.len() == 0),
        map matches Some(m) ==> (m.artists is None ==> out.all@.len() == 0),
        map matches Some(m) ==> (m.primary_artists matches Some(v) ==> artists_mapped(v@, out.primary@)),
        map matches Some(m) ==> (m.featured_artists matches Some(v) ==> artists_mapped(v@, out.featured@)),
        map matches Some(m) ==> (m.artists matches Some(v) ==> artists_mapped(v@, out.all@)),
{
}

/// Law: a song keeps the catalogue's identity and texts. Its id, name, type, year,
/// language and address are the catalogue's `id`, `title`, `type`, `year`, `language` and
/// `perma_url`; it is explicit exactly when the catalogue's flag is `"1"`; its play count
/// is the catalogue's numeral read as a number. From `more_info`: the album's id, name and
/// address are `album_id`, `album` and `album_url`; the release date, label, lyrics id and
/// copyright are `release_date`, `label`, `lyrics_id` and `copyright_text`; the duration is
/// `duration` read as a number; it has lyrics exactly when `has_lyrics` is `"true"`; the
/// artists are those of `artistMap`; the download links come from `encrypted_media_url`.
/// Without `more_info` all of these are absent, false or empty.
pub proof fn law_song_fields(raw: RawSong, out: Song)
    requires
        song_mapped(raw, out),
    ensures
        out.id == raw.id,
        out.name == raw.title,
        out.item_type == raw.item_type,
        out.year == raw.year,
        out.language == raw.language,
        out.url == raw.perma_url,
        out.explicit_content == (raw.explicit_content matches Some(f) && f@ == "1"@),
        out.play_count == (match raw.play_count { Some(n) => parse_i32_spec(n@), None => None }),
        links_view(out.image@) == image_links_spec(raw.image@),
        raw.more_info matches Some(m) ==> {
            &&& out.album.id == m.album_id
            &&& out.album.name == m.album
            &&& out.album.url == m.album_url
            &&& out.release_date == m.release_date
            &&& out.label == m.label
            &&& out.lyrics_id == m.lyrics_id
            &&& out.copyright == m.copyright_text
            &&& out.duration == (match m.duration { Some(n) => parse_i32_spec(n@), None => None })
            &&& out.has_lyrics == (m.has_lyrics matches Some(f) && f@ == "true"@)
            &&& artist_map_mapped(m.artistMap, out.artists)
            &&& links_view(out.download_url@) == download_links_spec(
                match m.encrypted_media_url { Some(e) => e@, None => Seq::empty() },
            )
        },
        raw.more_info is None ==> {
            &&& out.album.id is None && out.album.name is None && out.album.url is None
            &&& out.release_date is None && out.label is None && out.lyrics_id is None
            &&& out.copyright is None && out.duration is None && !out.has_lyrics
            &&& artist_map_mapped(None, out.artists)
            &&& out.download_url@.len() == 0
        },
{
    if raw.more_info is None {
        assert(links_view(out.download_url@).len() == out.download_url@.len());
        assert(Seq::<char>::empty().len() == 0);
    }
}

/// Law: a list of songs keeps its length and order: the i-th song given is the i-th
/// song listed by the catalogue.
pub proof fn law_song_list_order(raws: Seq<RawSong>, outs: Seq<Song>)
    requires
        songs_mapped(raws, outs),
    ensures
        outs.len() == raws.len(),
        forall|i: int| 0 <= i < raws.len() ==> song_mapped(#[trigger] raws[i], outs[i]),
{
}

} // verus!
