use vstd::prelude::*;

verus! {

pub const ID: &'static str = "artist.getArtistPageDetails";
pub const SONGS: &'static str = "artist.getArtistMoreSong";
pub const ALBUMS: &'static str = "artist.getArtistMoreAlbum";

} // verus!
