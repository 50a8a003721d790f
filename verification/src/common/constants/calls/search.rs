use vstd::prelude::*;

verus! {

pub const ALL: &'static str = "autocomplete.get";
pub const SONGS: &'static str = "search.getResults";
pub const ALBUMS: &'static str = "search.getAlbumResults";
pub const ARTISTS: &'static str = "search.getArtistResults";
pub const PLAYLISTS: &'static str = "search.getPlaylistResults";

} // verus!
