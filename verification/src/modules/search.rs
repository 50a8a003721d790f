use vstd::prelude::*;
use crate::common::helpers::{create_image_links, image_links_spec};
use crate::common::constants::calls;
use crate::common::numbers::{decimal_repr, parse_i32_spec, i32_repr, i32_to_string, usize_to_string};
use crate::common::types::{
    limit_or_default, links_view, page_or_default, pairs_view, param, request_is, ApiError, DownloadLink,
    FetchRequest, failure_is, failure_with, status_of, Failure,
};
use crate::modules::songs::{artist_mini_mapped, list_or_empty, map_artist_mini, map_song, song_mapped};
use crate::modules::songs::{
    artist_map_mapped, flag_is, map_artist_map, optional_flag_is, parse_opt_i32, parse_optional_i32,
    ArtistMini, RawArtistMap, RawArtistMini, RawSong, Song, SongArtists,
};

verus! {

// --- Records of the catalogue's answers ---

/// The answer to a search over all kinds of items.
#[derive(Debug)]
pub struct RawSearchAll {
    pub topquery: Option<RawSearchSection<RawSearchTopQueryItem>>,
    pub songs: Option<RawSearchSection<RawSearchSongItem>>,
    pub albums: Option<RawSearchSection<RawSearchAlbumItem>>,
    pub artists: Option<RawSearchSection<RawSearchArtistItem>>,
    pub playlists: Option<RawSearchSection<RawSearchPlaylistItem>>,
}

/// One kind of item in an answer to a search over all kinds, with its rank among the kinds.
#[derive(Debug)]
pub struct RawSearchSection<T> {
    pub data: Vec<T>,
    pub position: i32,
}

#[derive(Debug)]
pub struct RawSearchTopQueryItem {
    pub id: String,
    pub title: String,
    pub image: String,
    pub perma_url: String,
    pub item_type: String,
    pub description: Option<String>,
    pub more_info: Option<RawSearchTopQueryMoreInfo>,
}

#[derive(Debug)]
pub struct RawSearchTopQueryMoreInfo {
    pub album: Option<String>,
    pub language: Option<String>,
    pub primary_artists: Option<String>,
    pub singers: Option<String>,
}

#[derive(Debug)]
pub struct RawSearchSongItem {
    pub id: String,
    pub title: String,
    pub image: String,
    pub perma_url: String,
    pub item_type: String,
    pub description: Option<String>,
    pub more_info: Option<RawSearchSongMoreInfo>,
}

#[derive(Debug)]
pub struct RawSearchSongMoreInfo {
    pub album: Option<String>,
    pub language: Option<String>,
    pub primary_artists: Option<String>,
    pub singers: Option<String>,
}

#[derive(Debug)]
pub struct RawSearchAlbumItem {
    pub id: String,
    pub title: String,
    pub image: String,
    pub perma_url: String,
    pub item_type: String,
    pub description: Option<String>,
    pub more_info: Option<RawSearchAlbumMoreInfo>,
}

#[derive(Debug)]
pub struct RawSearchAlbumMoreInfo {
    pub music: Option<String>,
    pub year: Option<String>,
    pub song_pids: Option<String>,
    pub language: Option<String>,
}

#[derive(Debug)]
pub struct RawSearchArtistItem {
    pub id: String,
    pub title: String,
    pub image: String,
    pub item_type: String,
    pub description: Option<String>,
    pub position: i32,
}

#[derive(Debug)]
pub struct RawSearchPlaylistItem {
    pub id: String,
    pub title: String,
    pub image: String,
    pub perma_url: String,
    pub item_type: String,
    pub description: Option<String>,
    pub more_info: Option<RawSearchPlaylistMoreInfo>,
}

#[derive(Debug)]
pub struct RawSearchPlaylistMoreInfo {
    pub language: Option<String>,
}

/// The answer to a song search.
#[derive(Debug)]
pub struct RawSearchSongs {
    pub total: i32,
    pub start: i32,
    pub results: Option<Vec<RawSong>>,
}

/// The answer to an album search.
#[derive(Debug)]
pub struct RawSearchAlbums {
    pub total: i32,
    pub start: i32,
    pub results: Option<Vec<RawSearchAlbumsItem>>,
}

#[derive(Debug)]
pub struct RawSearchAlbumsItem {
    pub id: String,
    pub title: String,
    pub header_desc: Option<String>,
    pub perma_url: String,
    pub year: Option<String>,
    pub item_type: String,
    pub play_count: Option<String>,
    pub language: String,
    pub explicit_content: Option<String>,
    pub image: String,
    pub more_info: Option<RawSearchAlbumsMoreInfo>,
}

#[derive(Debug)]
pub struct RawSearchAlbumsMoreInfo {
    pub artist_map: Option<RawArtistMap>,
}

/// The answer to an artist search.
#[derive(Debug)]
pub struct RawSearchArtists {
    pub total: i32,
    pub start: i32,
    pub results: Option<Vec<RawArtistMini>>,
}

/// The answer to a playlist search.
#[derive(Debug)]
pub struct RawSearchPlaylists {
    pub total: i32,
    pub start: i32,
    pub results: Option<Vec<RawSearchPlaylistItemInner>>,
}

#[derive(Debug)]
pub struct RawSearchPlaylistItemInner {
    pub id: String,
    pub title: String,
    pub item_type: String,
    pub image: String,
    pub perma_url: String,
    pub explicit_content: Option<String>,
    pub more_info: Option<RawSearchPlaylistItemMoreInfo>,
}

#[derive(Debug)]
pub struct RawSearchPlaylistItemMoreInfo {
    pub song_count: Option<String>,
    pub language: Option<String>,
}

// --- Records the service answers with ---

#[derive(Debug)]
pub struct SearchTopQueryItem {
    pub id: String,
    pub title: String,
    pub image: Vec<DownloadLink>,
    pub album: Option<String>,
    pub url: String,
    pub item_type: String,
    pub language: Option<String>,
    pub description: Option<String>,
    pub primary_artists: Option<String>,
    pub singers: Option<String>,
}

#[derive(Debug)]
pub struct SearchSongItem {
    pub id: String,
    pub title: String,
    pub image: Vec<DownloadLink>,
    pub album: Option<String>,
    pub url: String,
    pub item_type: String,
    pub description: Option<String>,
    pub primary_artists: Option<String>,
    pub singers: Option<String>,
    pub language: Option<String>,
}

#[derive(Debug)]
pub struct SearchAlbumItem {
    pub id: String,
    pub title: String,
    pub image: Vec<DownloadLink>,
    pub artist: Option<String>,
    pub url: String,
    pub item_type: String,
    pub description: Option<String>,
    pub year: Option<String>,
    pub song_ids: Option<String>,
    pub language: Option<String>,
}

#[derive(Debug)]
pub struct SearchArtistItem {
    pub id: String,
    pub title: String,
    pub image: Vec<DownloadLink>,
    pub item_type: String,
    pub description: Option<String>,
    pub position: i32,
}

#[derive(Debug)]
pub struct SearchPlaylistItem {
    pub id: String,
    pub title: String,
    pub image: Vec<DownloadLink>,
    pub url: String,
    pub item_type: String,
    pub language: Option<String>,
    pub description: Option<String>,
}

/// One kind of item in the answer to a search over all kinds, with its rank among the kinds.
#[derive(Debug)]
pub struct SearchSection<T> {
    pub results: Vec<T>,
    pub position: i32,
}

/// The answer to a search over all kinds of items.
#[derive(Debug)]
pub struct SearchAllResponse {
    pub top_query: SearchSection<SearchTopQueryItem>,
    pub songs: SearchSection<SearchSongItem>,
    pub albums: SearchSection<SearchAlbumItem>,
    pub artists: SearchSection<SearchArtistItem>,
    pub playlists: SearchSection<SearchPlaylistItem>,
}

/// The answer to a song search.
#[derive(Debug)]
pub struct SearchSongsResponse {
    pub total: i32,
    pub start: i32,
    pub results: Vec<Song>,
}

/// An album found by an album search.
#[derive(Debug)]
pub struct SearchAlbumResult {
    pub id: String,
    pub name: String,
    pub description: Option<String>,
    pub url: String,
    pub year: Option<i32>,
    pub item_type: String,
    pub play_count: Option<i32>,
    pub language: String,
    pub explicit_content: bool,
    pub artists: SongArtists,
    pub image: Vec<DownloadLink>,
}

/// The answer to an album search.
#[derive(Debug)]
pub struct SearchAlbumsResponse {
    pub total: i32,
    pub start: i32,
    pub results: Vec<SearchAlbumResult>,
}

/// The answer to an artist search.
#[derive(Debug)]
pub struct SearchArtistsResponse {
    pub total: i32,
    pub start: i32,
    pub results: Vec<ArtistMini>,
}

/// A playlist found by a playlist search.
#[derive(Debug)]
pub struct SearchPlaylistResult {
    pub id: String,
    pub name: String,
    pub item_type: String,
    pub image: Vec<DownloadLink>,
    pub url: String,
    pub song_count: Option<i32>,
    pub language: Option<String>,
    pub explicit_content: bool,
}

/// The answer to a playlist search.
#[derive(Debug)]
pub struct SearchPlaylistsResponse {
    pub total: i32,
    pub start: i32,
    pub results: Vec<SearchPlaylistResult>,
}

/// The parameters of a search over all kinds of items.
#[derive(Debug)]
pub struct SearchAllQuery {
    pub query: String,
}

/// The parameters of a search for one kind of item.
#[derive(Debug)]
pub struct SearchSubQuery {
    pub query: String,
    pub page: Option<i32>,
    pub limit: Option<usize>,
}

// --- What the mappings compute ---

pub open spec fn top_query_more_or_empty(o: Option<RawSearchTopQueryMoreInfo>) -> RawSearchTopQueryMoreInfo {
    match o {
        Some(m) => m,
        None => RawSearchTopQueryMoreInfo { album: None, language: None, primary_artists: None, singers: None },
    }
}

pub open spec fn song_more_or_empty(o: Option<RawSearchSongMoreInfo>) -> RawSearchSongMoreInfo {
    match o {
        Some(m) => m,
        None => RawSearchSongMoreInfo { album: None, language: None, primary_artists: None, singers: None },
    }
}

pub open spec fn album_more_or_empty(o: Option<RawSearchAlbumMoreInfo>) -> RawSearchAlbumMoreInfo {
    match o {
        Some(m) => m,
        None => RawSearchAlbumMoreInfo { music: None, year: None, song_pids: None, language: None },
    }
}

pub open spec fn playlist_language(o: Option<RawSearchPlaylistMoreInfo>) -> Option<String> {
    match o {
        Some(m) => m.language,
        None => None,
    }
}

pub open spec fn top_query_item_mapped(raw: RawSearchTopQueryItem, out: SearchTopQueryItem) -> bool {
    let m = top_query_more_or_empty(raw.more_info);
    &&& out.id == raw.id
    &&& out.title == raw.title
    &&& links_view(out.image@) == image_links_spec(raw.image@)
    &&& out.album == m.album
    &&& out.url == raw.perma_url
    &&& out.item_type == raw.item_type
    &&& out.language == m.language
    &&& out.description == raw.description
    &&& out.primary_artists == m.primary_artists
    &&& out.singers == m.singers
}

pub open spec fn song_item_mapped(raw: RawSearchSongItem, out: SearchSongItem) -> bool {
    let m = song_more_or_empty(raw.more_info);
    &&& out.id == raw.id
    &&& out.title == raw.title
    &&& links_view(out.image@) == image_links_spec(raw.image@)
    &&& out.album == m.album
    &&& out.url == raw.perma_url
    &&& out.item_type == raw.item_type
    &&& out.description == raw.description
    &&& out.primary_artists == m.primary_artists
    &&& out.singers == m.singers
    &&& out.language == m.language
}

pub open spec fn album_item_mapped(raw: RawSearchAlbumItem, out: SearchAlbumItem) -> bool {
    let m = album_more_or_empty(raw.more_info);
    &&& out.id == raw.id
    &&& out.title == raw.title
    &&& links_view(out.image@) == image_links_spec(raw.image@)
    &&& out.artist == m.music
    &&& out.url == raw.perma_url
    &&& out.item_type == raw.item_type
    &&& out.description == raw.description
    &&& out.year == m.year
    &&& out.song_ids == m.song_pids
    &&& out.language == m.language
}

pub open spec fn artist_item_mapped(raw: RawSearchArtistItem, out: SearchArtistItem) -> bool {
    &&& out.id == raw.id
    &&& out.title == raw.title
    &&& links_view(out.image@) == image_links_spec(raw.image@)
    &&& out.item_type == raw.item_type
    &&& out.description == raw.description
    &&& out.position == raw.position
}

pub open spec fn playlist_item_mapped(raw: RawSearchPlaylistItem, out: SearchPlaylistItem) -> bool {
    &&& out.id == raw.id
    &&& out.title == raw.title
    &&& links_view(out.image@) == image_links_spec(raw.image@)
    &&& out.url == raw.perma_url
    &&& out.item_type == raw.item_type
    &&& out.language == playlist_language(raw.more_info)
    &&& out.description == raw.description
}

/// The items of an optional section (none when absent) and its rank (0 when absent).
pub open spec fn section_items<T>(o: Option<RawSearchSection<T>>) -> Seq<T> {
    match o {
        Some(s) => s.data@,
        None => Seq::empty(),
    }
}

pub open spec fn section_position<T>(o: Option<RawSearchSection<T>>) -> i32 {
    match o {
        Some(s) => s.position,
        None => 0,
    }
}

/// `out` is the section `raw` with every item mapped by `rel`; an absent section gives
/// an empty one ranked 0.
pub open spec fn section_mapped<A, B>(raw: Option<RawSearchSection<A>>, out: SearchSection<B>, rel: spec_fn(A, B) -> bool) -> bool {
    let items = section_items(raw);
    &&& out.position == section_position(raw)
    &&& out.results@.len() == items.len()
    &&& forall|i: int| 0 <= i < items.len() ==> #[trigger] rel(items[i], out.results@[i])
}

/// `out` is `raw` in the service's form, section by section.
pub open spec fn search_all_mapped(raw: RawSearchAll, out: SearchAllResponse) -> bool {
    &&& section_mapped(raw.topquery, out.top_query, |a: RawSearchTopQueryItem, b: SearchTopQueryItem| top_query_item_mapped(a, b))
    &&& section_mapped(raw.songs, out.songs, |a: RawSearchSongItem, b: SearchSongItem| song_item_mapped(a, b))
    &&& section_mapped(raw.albums, out.albums, |a: RawSearchAlbumItem, b: SearchAlbumItem| album_item_mapped(a, b))
    &&& section_mapped(raw.artists, out.artists, |a: RawSearchArtistItem, b: SearchArtistItem| artist_item_mapped(a, b))
    &&& section_mapped(raw.playlists, out.playlists, |a: RawSearchPlaylistItem, b: SearchPlaylistItem| playlist_item_mapped(a, b))
}

// --- Mappings ---

fn map_top_query_item(item: RawSearchTopQueryItem) -> (r: SearchTopQueryItem)
    ensures
        top_query_item_mapped(item, r),
{
    let more_info = match item.more_info {
        Some(m) => m,
        None => RawSearchTopQueryMoreInfo { album: None, language: None, primary_artists: None, singers: None },
    };
    let image = create_image_links(item.image.as_str());
    SearchTopQueryItem {
        id: item.id,
        title: item.title,
        image,
        album: more_info.album,
        url: item.perma_url,
        item_type: item.item_type,
        language: more_info.language,
        description: item.description,
        primary_artists: more_info.primary_artists,
        singers: more_info.singers,
    }
}

fn map_song_item(item: RawSearchSongItem) -> (r: SearchSongItem)
    ensures
        song_item_mapped(item, r),
{
    let more_info = match item.more_info {
        Some(m) => m,
        None => RawSearchSongMoreInfo { album: None, language: None, primary_artists: None, singers: None },
    };
    let image = create_image_links(item.image.as_str());
    SearchSongItem {
        id: item.id,
        title: item.title,
        image,
        album: more_info.album,
        url: item.perma_url,
        item_type: item.item_type,
        description: item.description,
        primary_artists: more_info.primary_artists,
        singers: more_info.singers,
        language: more_info.language,
    }
}

fn map_album_item(item: RawSearchAlbumItem) -> (r: SearchAlbumItem)
    ensures
        album_item_mapped(item, r),
{
    let more_info = match item.more_info {
        Some(m) => m,
        None => RawSearchAlbumMoreInfo { music: None, year: None, song_pids: None, language: None },
    };
    let image = create_image_links(item.image.as_str());
    SearchAlbumItem {
        id: item.id,
        title: item.title,
        image,
        artist: more_info.music,
        url: item.perma_url,
        item_type: item.item_type,
        description: item.description,
        year: more_info.year,
        song_ids: more_info.song_pids,
        language: more_info.language,
    }
}

fn map_artist_item(item: RawSearchArtistItem) -> (r: SearchArtistItem)
    ensures
        artist_item_mapped(item, r),
{
    let image = create_image_links(item.image.as_str());
    SearchArtistItem {
        id: item.id,
        title: item.title,
        image,
        item_type: item.item_type,
        description: item.description,
        position: item.position,
    }
}

fn map_playlist_item(item: RawSearchPlaylistItem) -> (r: SearchPlaylistItem)
    ensures
        playlist_item_mapped(item, r),
{
    let language = match item.more_info {
        Some(m) => m.language,
        None => None,
    };
    let image = create_image_links(item.image.as_str());
    SearchPlaylistItem {
        id: item.id,
        title: item.title,
        image,
        url: item.perma_url,
        item_type: item.item_type,
        language,
        description: item.description,
    }
}

fn map_top_query_section(raw: Option<RawSearchSection<RawSearchTopQueryItem>>) -> (r: SearchSection<SearchTopQueryItem>)
    ensures
        section_mapped(raw, r, |a: RawSearchTopQueryItem, b: SearchTopQueryItem| top_query_item_mapped(a, b)),
{
    let ghost items = section_items(raw);
    let (data, position) = match raw {
        Some(s) => (s.data, s.position),
        None => (Vec::new(), 0),
    };
    let mut results: Vec<SearchTopQueryItem> = Vec::new();
    for item in it: data.into_iter()
        invariant
            it.seq() == items,
            results@.len() == it.index(),
            forall|i: int| 0 <= i < it.index() ==> top_query_item_mapped(#[trigger] items[i], results@[i]),
    {
        results.push(map_top_query_item(item));
    }
    SearchSection { results, position }
}

fn map_song_section(raw: Option<RawSearchSection<RawSearchSongItem>>) -> (r: SearchSection<SearchSongItem>)
    ensures
        section_mapped(raw, r, |a: RawSearchSongItem, b: SearchSongItem| song_item_mapped(a, b)),
{
    let ghost items = section_items(raw);
    let (data, position) = match raw {
        Some(s) => (s.data, s.position),
        None => (Vec::new(), 0),
    };
    let mut results: Vec<SearchSongItem> = Vec::new();
    for item in it: data.into_iter()
        invariant
            it.seq() == items,
            results@.len() == it.index(),
            forall|i: int| 0 <= i < it.index() ==> song_item_mapped(#[trigger] items[i], results@[i]),
    {
        results.push(map_song_item(item));
    }
    SearchSection { results, position }
}

fn map_album_section(raw: Option<RawSearchSection<RawSearchAlbumItem>>) -> (r: SearchSection<SearchAlbumItem>)
    ensures
        section_mapped(raw, r, |a: RawSearchAlbumItem, b: SearchAlbumItem| album_item_mapped(a, b)),
{
    let ghost items = section_items(raw);
    let (data, position) = match raw {
        Some(s) => (s.data, s.position),
        None => (Vec::new(), 0),
    };
    let mut results: Vec<SearchAlbumItem> = Vec::new();
    for item in it: data.into_iter()
        invariant
            it.seq() == items,
            results@.len() == it.index(),
            forall|i: int| 0 <= i < it.index() ==> album_item_mapped(#[trigger] items[i], results@[i]),
    {
        results.push(map_album_item(item));
    }
    SearchSection { results, position }
}

fn map_artist_section(raw: Option<RawSearchSection<RawSearchArtistItem>>) -> (r: SearchSection<SearchArtistItem>)
    ensures
        section_mapped(raw, r, |a: RawSearchArtistItem, b: SearchArtistItem| artist_item_mapped(a, b)),
{
    let ghost items = section_items(raw);
    let (data, position) = match raw {
        Some(s) => (s.data, s.position),
        None => (Vec::new(), 0),
    };
    let mut results: Vec<SearchArtistItem> = Vec::new();
    for item in it: data.into_iter()
        invariant
            it.seq() == items,
            results@.len() == it.index(),
            forall|i: int| 0 <= i < it.index() ==> artist_item_mapped(#[trigger] items[i], results@[i]),
    {
        results.push(map_artist_item(item));
    }
    SearchSection { results, position }
}

fn map_playlist_section(raw: Option<RawSearchSection<RawSearchPlaylistItem>>) -> (r: SearchSection<SearchPlaylistItem>)
    ensures
        section_mapped(raw, r, |a: RawSearchPlaylistItem, b: SearchPlaylistItem| playlist_item_mapped(a, b)),
{
    let ghost items = section_items(raw);
    let (data, position) = match raw {
        Some(s) => (s.data, s.position),
        None => (Vec::new(), 0),
    };
    let mut results: Vec<SearchPlaylistItem> = Vec::new();
    for item in it: data.into_iter()
        invariant
            it.seq() == items,
            results@.len() == it.index(),
            forall|i: int| 0 <= i < it.index() ==> playlist_item_mapped(#[trigger] items[i], results@[i]),
    {
        results.push(map_playlist_item(item));
    }
    SearchSection { results, position }
}

/// The answer to a search over all kinds of items, in the service's form: each section's
/// items mapped in order, an absent section given as an empty one ranked 0.
pub fn map_search_all(raw: RawSearchAll) -> (r: SearchAllResponse)
    ensures
        search_all_mapped(raw, r),
{
    SearchAllResponse {
        top_query: map_top_query_section(raw.topquery),
        songs: map_song_section(raw.songs),
        albums: map_album_section(raw.albums),
        artists: map_artist_section(raw.artists),
        playlists: map_playlist_section(raw.playlists),
    }
}

pub open spec fn albums_item_artist_map(o: Option<RawSearchAlbumsMoreInfo>) -> Option<RawArtistMap> {
    match o {
        Some(m) => m.artist_map,
        None => None,
    }
}

/// `out` is `raw` in the service's form.
pub open spec fn search_album_result_mapped(raw: RawSearchAlbumsItem, out: SearchAlbumResult) -> bool {
    &&& out.id == raw.id
    &&& out.name == raw.title
    &&& out.description == raw.header_desc
    &&& out.url == raw.perma_url
    &&& out.year == parse_opt_i32(raw.year)
    &&& out.item_type == raw.item_type
    &&& out.play_count == parse_opt_i32(raw.play_count)
    &&& out.language == raw.language
    &&& out.explicit_content == flag_is(raw.explicit_content, "1"@)
    &&& artist_map_mapped(albums_item_artist_map(raw.more_info), out.artists)
    &&& links_view(out.image@) == image_links_spec(raw.image@)
}

pub open spec fn playlist_inner_more_or_empty(o: Option<RawSearchPlaylistItemMoreInfo>) -> RawSearchPlaylistItemMoreInfo {
    match o {
        Some(m) => m,
        None => RawSearchPlaylistItemMoreInfo { song_count: None, language: None },
    }
}

/// `out` is `raw` in the service's form.
pub open spec fn search_playlist_result_mapped(raw: RawSearchPlaylistItemInner, out: SearchPlaylistResult) -> bool {
    let m = playlist_inner_more_or_empty(raw.more_info);
    &&& out.id == raw.id
    &&& out.name == raw.title
    &&& out.item_type == raw.item_type
    &&& links_view(out.image@) == image_links_spec(raw.image@)
    &&& out.url == raw.perma_url
    &&& out.song_count == parse_opt_i32(m.song_count)
    &&& out.language == m.language
    &&& out.explicit_content == flag_is(raw.explicit_content, "1"@)
}

/// An album found by an album search, in the service's form.
pub fn map_search_album_result(item: RawSearchAlbumsItem) -> (r: SearchAlbumResult)
    ensures
        search_album_result_mapped(item, r),
{
    let artist_map = match item.more_info {
        Some(m) => m.artist_map,
        None => None,
    };
    proof {
        reveal_strlit("1");
    }
    let explicit = optional_flag_is(&item.explicit_content, "1");
    let image = create_image_links(item.image.as_str());
    SearchAlbumResult {
        id: item.id,
        name: item.title,
        description: item.header_desc,
        url: item.perma_url,
        year: parse_optional_i32(item.year),
        item_type: item.item_type,
        play_count: parse_optional_i32(item.play_count),
        language: item.language,
        explicit_content: explicit,
        artists: map_artist_map(artist_map),
        image,
    }
}

/// A playlist found by a playlist search, in the service's form.
pub fn map_search_playlist_result(item: RawSearchPlaylistItemInner) -> (r: SearchPlaylistResult)
    ensures
        search_playlist_result_mapped(item, r),
{
    let more_info = match item.more_info {
        Some(m) => m,
        None => RawSearchPlaylistItemMoreInfo { song_count: None, language: None },
    };
    proof {
        reveal_strlit("1");
    }
    let explicit = optional_flag_is(&item.explicit_content, "1");
    let image = create_image_links(item.image.as_str());
    SearchPlaylistResult {
        id: item.id,
        name: item.title,
        item_type: item.item_type,
        image,
        url: item.perma_url,
        song_count: parse_optional_i32(more_info.song_count),
        language: more_info.language,
        explicit_content: explicit,
    }
}

/// The call for a search over all kinds of items.
pub fn search_all_request(query: &str) -> (r: FetchRequest)
    ensures
        request_is(r, calls::search::ALL@, seq![("query"@, query@)], None),
{
    let mut params: Vec<(String, String)> = Vec::new();
    params.push(param("query", String::from_str(query)));
    let r = FetchRequest { call: String::from_str(calls::search::ALL), params, context: None };
    assert(pairs_view(r.params@) =~= seq![("query"@, query@)]);
    r
}

/// The answer to a search over all kinds of items (`None`: the call failed).
pub fn search_all_from_response(result: Option<RawSearchAll>) -> (r: Result<SearchAllResponse, ApiError>)
    ensures
        match result {
            None => r == Err::<SearchAllResponse, ApiError>(ApiError::InternalServerError),
            Some(raw) => r matches Ok(res) && search_all_mapped(raw, res),
        },
{
    match result {
        None => Err(ApiError::InternalServerError),
        Some(raw) => Ok(map_search_all(raw)),
    }
}

/// The page and size of a search for one kind of item: page 0 and 10 results unless given.
pub fn search_page_of(query: &SearchSubQuery) -> (r: (i32, usize))
    ensures
        r.0 == match query.page { Some(p) => p, None => 0i32 },
        r.1 == match query.limit { Some(l) => l, None => 10usize },
{
    (page_or_default(query.page), limit_or_default(query.limit))
}

/// The parameters of a search for one kind of item.
pub open spec fn search_params(query: Seq<char>, page: i32, limit: usize) -> Seq<(Seq<char>, Seq<char>)> {
    seq![("q"@, query), ("p"@, i32_repr(page)), ("n"@, decimal_repr(limit as nat))]
}

fn search_page_request(call: &str, query: &str, page: i32, limit: usize) -> (r: FetchRequest)
    ensures
        request_is(r, call@, search_params(query@, page, limit), None),
{
    let mut params: Vec<(String, String)> = Vec::new();
    params.push(param("q", String::from_str(query)));
    params.push(param("p", i32_to_string(page)));
    params.push(param("n", usize_to_string(limit)));
    let r = FetchRequest { call: String::from_str(call), params, context: None };
    assert(pairs_view(r.params@) =~= search_params(query@, page, limit));
    r
}

/// The call for page `page` of up to `limit` songs matching `query`.
pub fn search_songs_request(query: &str, page: i32, limit: usize) -> (r: FetchRequest)
    ensures
        request_is(r, calls::search::SONGS@, search_params(query@, page, limit), None),
{
    search_page_request(calls::search::SONGS, query, page, limit)
}

/// The call for page `page` of up to `limit` albums matching `query`.
pub fn search_albums_request(query: &str, page: i32, limit: usize) -> (r: FetchRequest)
    ensures
        request_is(r, calls::search::ALBUMS@, search_params(query@, page, limit), None),
{
    search_page_request(calls::search::ALBUMS, query, page, limit)
}

/// The call for page `page` of up to `limit` artists matching `query`.
pub fn search_artists_request(query: &str, page: i32, limit: usize) -> (r: FetchRequest)
    ensures
        request_is(r, calls::search::ARTISTS@, search_params(query@, page, limit), None),
{
    search_page_request(calls::search::ARTISTS, query, page, limit)
}

/// The call for page `page` of up to `limit` playlists matching `query`.
pub fn search_playlists_request(query: &str, page: i32, limit: usize) -> (r: FetchRequest)
    ensures
        request_is(r, calls::search::PLAYLISTS@, search_params(query@, page, limit), None),
{
    search_page_request(calls::search::PLAYLISTS, query, page, limit)
}

/// The number of results a search keeps: all of them, but at most `limit`.
pub open spec fn kept_count(found: nat, limit: usize) -> int {
    if found < limit { found as int } else { limit as int }
}

/// The songs of a song search's answer (`None`: the call failed): the first `limit` of them
/// (none when absent) in the service's form, with the answer's total and start.
pub fn search_songs_from_response(result: Option<RawSearchSongs>, limit: usize) -> (r: Result<SearchSongsResponse, ApiError>)
    ensures
        match result {
            None => r == Err::<SearchSongsResponse, ApiError>(ApiError::InternalServerError),
            Some(raw) => r matches Ok(res) && {
                let found = list_or_empty(raw.results);
                &&& res.total == raw.total
                &&& res.start == raw.start
                &&& res.results@.len() == kept_count(found.len(), limit)
                &&& forall|k: int| 0 <= k < res.results@.len() ==> song_mapped(#[trigger] found[k], res.results@[k])
            },
        },
{
    let raw = match result {
        None => return Err(ApiError::InternalServerError),
        Some(raw) => raw,
    };
    let ghost found = list_or_empty(raw.results);
    let list = match raw.results {
        Some(l) => l,
        None => Vec::new(),
    };
    let mut results: Vec<Song> = Vec::new();
    for item in it: list.into_iter()
        invariant
            it.seq() == found,
            results@.len() == it.index(),
            forall|k: int| 0 <= k < it.index() ==> song_mapped(#[trigger] found[k], results@[k]),
    {
        results.push(map_song(item));
    }
    results.truncate(limit);
    Ok(SearchSongsResponse { total: raw.total, start: raw.start, results })
}

/// The albums of an album search's answer (`None`: the call failed): the first `limit` of
/// them (none when absent) in the service's form, with the answer's total and start.
pub fn search_albums_from_response(result: Option<RawSearchAlbums>, limit: usize) -> (r: Result<SearchAlbumsResponse, ApiError>)
    ensures
        match result {
            None => r == Err::<SearchAlbumsResponse, ApiError>(ApiError::InternalServerError),
            Some(raw) => r matches Ok(res) && {
                let found = list_or_empty(raw.results);
                &&& res.total == raw.total
                &&& res.start == raw.start
                &&& res.results@.len() == kept_count(found.len(), limit)
                &&& forall|k: int| 0 <= k < res.results@.len() ==> search_album_result_mapped(#[trigger] found[k], res.results@[k])
            },
        },
{
    let raw = match result {
        None => return Err(ApiError::InternalServerError),
        Some(raw) => raw,
    };
    let ghost found = list_or_empty(raw.results);
    let list = match raw.results {
        Some(l) => l,
        None => Vec::new(),
    };
    let mut results: Vec<SearchAlbumResult> = Vec::new();
    for item in it: list.into_iter()
        invariant
            it.seq() == found,
            results@.len() == it.index(),
            forall|k: int| 0 <= k < it.index() ==> search_album_result_mapped(#[trigger] found[k], results@[k]),
    {
        results.push(map_search_album_result(item));
    }
    results.truncate(limit);
    Ok(SearchAlbumsResponse { total: raw.total, start: raw.start, results })
}

/// The artists of an artist search's answer (`None`: the call failed): the first `limit`
/// of them (none when absent) in the service's form, with the answer's total and start.
pub fn search_artists_from_response(result: Option<RawSearchArtists>, limit: usize) -> (r: Result<SearchArtistsResponse, ApiError>)
    ensures
        match result {
            None => r == Err::<SearchArtistsResponse, ApiError>(ApiError::InternalServerError),
            Some(raw) => r matches Ok(res) && {
                let found = list_or_empty(raw.results);
                &&& res.total == raw.total
                &&& res.start == raw.start
                &&& res.results@.len() == kept_count(found.len(), limit)
                &&& forall|k: int| 0 <= k < res.results@.len() ==> artist_mini_mapped(#[trigger] found[k], res.results@[k])
            },
        },
{
    let raw = match result {
        None => return Err(ApiError::InternalServerError),
        Some(raw) => raw,
    };
    let ghost found = list_or_empty(raw.results);
    let list = match raw.results {
        Some(l) => l,
        None => Vec::new(),
    };
    let mut results: Vec<ArtistMini> = Vec::new();
    for item in it: list.into_iter()
        invariant
            it.seq() == found,
            results@.len() == it.index(),
            forall|k: int| 0 <= k < it.index() ==> artist_mini_mapped(#[trigger] found[k], results@[k]),
    {
        results.push(map_artist_mini(item));
    }
    results.truncate(limit);
    Ok(SearchArtistsResponse { total: raw.total, start: raw.start, results })
}

/// The playlists of a playlist search's answer (`None`: the call failed): the first `limit`
/// of them (none when absent) in the service's form, with the answer's total and start.
pub fn search_playlists_from_response(result: Option<RawSearchPlaylists>, limit: usize) -> (r: Result<SearchPlaylistsResponse, ApiError>)
    ensures
        match result {
            None => r == Err::<SearchPlaylistsResponse, ApiError>(ApiError::InternalServerError),
            Some(raw) => r matches Ok(res) && {
                let found = list_or_empty(raw.results);
                &&& res.total == raw.total
                &&& res.start == raw.start
                &&& res.results@.len() == kept_count(found.len(), limit)
                &&& forall|k: int| 0 <= k < res.results@.len() ==> search_playlist_result_mapped(#[trigger] found[k], res.results@[k])
            },
        },
{
    let raw = match result {
        None => return Err(ApiError::InternalServerError),
        Some(raw) => raw,
    };
    let ghost found = list_or_empty(raw.results);
    let list = match raw.results {
        Some(l) => l,
        None => Vec::new(),
    };
    let mut results: Vec<SearchPlaylistResult> = Vec::new();
    for item in it: list.into_iter()
        invariant
            it.seq() == found,
            results@.len() == it.index(),
            forall|k: int| 0 <= k < it.index() ==> search_playlist_result_mapped(#[trigger] found[k], results@[k]),
    {
        results.push(map_search_playlist_result(item));
    }
    results.truncate(limit);
    Ok(SearchPlaylistsResponse { total: raw.total, start: raw.start, results })
}

/// The answer to a failed search, of any kind.
pub fn search_failure(e: ApiError) -> (r: Failure)
    ensures
        failure_is(r, status_of(e), "Search error"@),
{
    failure_with(e, "Search error")
}

// --- Laws ---

/// Law: a top result of a search over all kinds keeps the catalogue's id, title, address,
/// type and description (`id`, `title`, `perma_url`, `type`, `description`); its album,
/// language, primary artists and singers are `more_info`'s `album`, `language`,
/// `primary_artists` and `singers` (absent without `more_info`).
pub proof fn law_top_query_item_fields(raw: RawSearchTopQueryItem, out: SearchTopQueryItem)
    requires
        top_query_item_mapped(raw, out),
    ensures
        out.id == raw.id,
        out.title == raw.title,
        out.url == raw.perma_url,
        out.item_type == raw.item_type,
        out.description == raw.description,
        links_view(out.image@) == image_links_spec(raw.image@),
        raw.more_info matches Some(m) ==> {
            &&& out.album == m.album
            &&& out.language == m.language
            &&& out.primary_artists == m.primary_artists
            &&& out.singers == m.singers
        },
        raw.more_info is None ==> out.album is None && out.language is None && out.primary_artists is None
            && out.singers is None,
{
}

/// Law: a song found by a search over all kinds keeps the catalogue's id, title, address,
/// type and description; its album, language, primary artists and singers are
/// `more_info`'s `album`, `language`, `primary_artists` and `singers` (absent without
/// `more_info`).
pub proof fn law_song_item_fields(raw: RawSearchSongItem, out: SearchSongItem)
    requires
        song_item_mapped(raw, out),
    ensures
        out.id == raw.id,
        out.title == raw.title,
        out.url == raw.perma_url,
        out.item_type == raw.item_type,
        out.description == raw.description,
        links_view(out.image@) == image_links_spec(raw.image@),
        raw.more_info matches Some(m) ==> {
            &&& out.album == m.album
            &&& out.language == m.language
            &&& out.primary_artists == m.primary_artists
            &&& out.singers == m.singers
        },
        raw.more_info is None ==> out.album is None && out.language is None && out.primary_artists is None
            && out.singers is None,
{
}

/// Law: an album found by a search over all kinds keeps the catalogue's id, title,
/// address, type and description; its artist, year, song ids and language are
/// `more_info`'s `music`, `year`, `song_pids` and `language` (absent without `more_info`).
pub proof fn law_album_item_fields(raw: RawSearchAlbumItem, out: SearchAlbumItem)
    requires
        album_item_mapped(raw, out),
    ensures
        out.id == raw.id,
        out.title == raw.title,
        out.url == raw.perma_url,
        out.item_type == raw.item_type,
        out.description == raw.description,
        links_view(out.image@) == image_links_spec(raw.image@),
        raw.more_info matches Some(m) ==> {
            &&& out.artist == m.music
            &&& out.year == m.year
            &&& out.song_ids == m.song_pids
            &&& out.language == m.language
        },
        raw.more_info is None ==> out.artist is None && out.year is None && out.song_ids is None
            && out.language is None,
{
}

/// Law: an artist found by a search over all kinds keeps the catalogue's id, title, type,
/// description and position.
pub proof fn law_artist_item_fields(raw: RawSearchArtistItem, out: SearchArtistItem)
    requires
        artist_item_mapped(raw, out),
    ensures
        out.id == raw.id,
        out.title == raw.title,
        out.item_type == raw.item_type,
        out.description == raw.description,
        out.position == raw.position,
        links_view(out.image@) == image_links_spec(raw.image@),
{
}

/// Law: a playlist found by a search over all kinds keeps the catalogue's id, title,
/// address, type and description; its language is `more_info`'s `language`.
pub proof fn law_playlist_item_fields(raw: RawSearchPlaylistItem, out: SearchPlaylistItem)
    requires
        playlist_item_mapped(raw, out),
    ensures
        out.id == raw.id,
        out.title == raw.title,
        out.url == raw.perma_url,
        out.item_type == raw.item_type,
        out.description == raw.description,
        links_view(out.image@) == image_links_spec(raw.image@),
        out.language == (match raw.more_info { Some(m) => m.language, None => None }),
{
}

/// Law: each section of a search over all kinds comes from the catalogue's section of the
/// same kind: it keeps that section's rank (0 when the catalogue has none) and its items,
/// in order.
pub proof fn law_search_all_sections(raw: RawSearchAll, out: SearchAllResponse)
    requires
        search_all_mapped(raw, out),
    ensures
        out.top_query.position == (match raw.topquery { Some(x) => x.position, None => 0i32 }),
        out.songs.position == (match raw.songs { Some(x) => x.position, None => 0i32 }),
        out.albums.position == (match raw.albums { Some(x) => x.position, None => 0i32 }),
        out.artists.position == (match raw.artists { Some(x) => x.position, None => 0i32 }),
        out.playlists.position == (match raw.playlists { Some(x) => x.position, None => 0i32 }),
        raw.topquery is None ==> out.top_query.results@.len() == 0,
        raw.songs is None ==> out.songs.results@.len() == 0,
        raw.albums is None ==> out.albums.results@.len() == 0,
        raw.artists is None ==> out.artists.results@.len() == 0,
        raw.playlists is None ==> out.playlists.results@.len() == 0,
        raw.topquery matches Some(x) ==> out.top_query.results@.len() == x.data@.len() && forall|i: int|
            0 <= i < x.data@.len() ==> top_query_item_mapped(#[trigger] x.data@[i], out.top_query.results@[i]),
        raw.songs matches Some(x) ==> out.songs.results@.len() == x.data@.len() && forall|i: int|
            0 <= i < x.data@.len() ==> song_item_mapped(#[trigger] x.data@[i], out.songs.results@[i]),
        raw.albums matches Some(x) ==> out.albums.results@.len() == x.data@.len() && forall|i: int|
            0 <= i < x.data@.len() ==> album_item_mapped(#[trigger] x.data@[i], out.albums.results@[i]),
        raw.artists matches Some(x) ==> out.artists.results@.len() == x.data@.len() && forall|i: int|
            0 <= i < x.data@.len() ==> artist_item_mapped(#[trigger] x.data@[i], out.artists.results@[i]),
        raw.playlists matches Some(x) ==> out.playlists.results@.len() == x.data@.len() && forall|i: int|
            0 <= i < x.data@.len() ==> playlist_item_mapped(#[trigger] x.data@[i], out.playlists.results@[i]),
{
    let tq = |a: RawSearchTopQueryItem, b: SearchTopQueryItem| top_query_item_mapped(a, b);
    let sg = |a: RawSearchSongItem, b: SearchSongItem| song_item_mapped(a, b);
    let al = |a: RawSearchAlbumItem, b: SearchAlbumItem| album_item_mapped(a, b);
    let ar = |a: RawSearchArtistItem, b: SearchArtistItem| artist_item_mapped(a, b);
    let pl = |a: RawSearchPlaylistItem, b: SearchPlaylistItem| playlist_item_mapped(a, b);
    assert(section_mapped(raw.topquery, out.top_query, tq));
    assert(section_mapped(raw.songs, out.songs, sg));
    assert(section_mapped(raw.albums, out.albums, al));
    assert(section_mapped(raw.artists, out.artists, ar));
    assert(section_mapped(raw.playlists, out.playlists, pl));
    assert forall|i: int| 0 <= i < section_items(raw.topquery).len() implies
        top_query_item_mapped(#[trigger] section_items(raw.topquery)[i], out.top_query.results@[i]) by {
        assert(tq(section_items(raw.topquery)[i], out.top_query.results@[i]));
    }
    assert forall|i: int| 0 <= i < section_items(raw.songs).len() implies
        song_item_mapped(#[trigger] section_items(raw.songs)[i], out.songs.results@[i]) by {
        assert(sg(section_items(raw.songs)[i], out.songs.results@[i]));
    }
    assert forall|i: int| 0 <= i < section_items(raw.albums).len() implies
        album_item_mapped(#[trigger] section_items(raw.albums)[i], out.albums.results@[i]) by {
        assert(al(section_items(raw.albums)[i], out.albums.results@[i]));
    }
    assert forall|i: int| 0 <= i < section_items(raw.artists).len() implies
        artist_item_mapped(#[trigger] section_items(raw.artists)[i], out.artists.results@[i]) by {
        assert(ar(section_items(raw.artists)[i], out.artists.results@[i]));
    }
    assert forall|i: int| 0 <= i < section_items(raw.playlists).len() implies
        playlist_item_mapped(#[trigger] section_items(raw.playlists)[i], out.playlists.results@[i]) by {
        assert(pl(section_items(raw.playlists)[i], out.playlists.results@[i]));
    }
}

/// Law: an album found by an album search keeps the catalogue's id, title, description,
/// address, type and language (`id`, `title`, `header_desc`, `perma_url`, `type`,
/// `language`); its year and play count are the catalogue's numerals read as numbers; it
/// is explicit exactly when the catalogue's flag is `"1"`; its artists are those of
/// `more_info`'s `artistMap`.
pub proof fn law_search_album_result_fields(raw: RawSearchAlbumsItem, out: SearchAlbumResult)
    requires
        search_album_result_mapped(raw, out),
    ensures
        out.id == raw.id,
        out.name == raw.title,
        out.description == raw.header_desc,
        out.url == raw.perma_url,
        out.item_type == raw.item_type,
        out.language == raw.language,
        out.year == (match raw.year { Some(n) => parse_i32_spec(n@), None => None }),
        out.play_count == (match raw.play_count { Some(n) => parse_i32_spec(n@), None => None }),
        out.explicit_content == (raw.explicit_content matches Some(f) && f@ == "1"@),
        links_view(out.image@) == image_links_spec(raw.image@),
        artist_map_mapped(match raw.more_info { Some(m) => m.artist_map, None => None }, out.artists),
{
}

/// Law: a playlist found by a playlist search keeps the catalogue's id, title, type and
/// address; it is explicit exactly when the catalogue's flag is `"1"`; its song count and
/// language are `more_info`'s `song_count` (read as a number) and `language`.
pub proof fn law_search_playlist_result_fields(raw: RawSearchPlaylistItemInner, out: SearchPlaylistResult)
    requires
        search_playlist_result_mapped(raw, out),
    ensures
        out.id == raw.id,
        out.name == raw.title,
        out.item_type == raw.item_type,
        out.url == raw.perma_url,
        out.explicit_content == (raw.explicit_content matches Some(f) && f@ == "1"@),
        links_view(out.image@) == image_links_spec(raw.image@),
        raw.more_info matches Some(m) ==> {
            &&& out.song_count == (match m.song_count { Some(n) => parse_i32_spec(n@), None => None })
            &&& out.language == m.language
        },
        raw.more_info is None ==> out.song_count is None && out.language is None,
{
}

} // verus!
