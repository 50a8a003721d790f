use vstd::prelude::*;

verus! {

pub const ID: &'static str = "song.getDetails";
pub const SUGGESTIONS: &'static str = "webradio.getSong";
pub const LYRICS: &'static str = "lyrics.getLyrics";
pub const STATION: &'static str = "webradio.createEntityStation";

} // verus!
