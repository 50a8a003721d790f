use vstd::prelude::*;

verus! {

pub const ID: &'static str = "content.getAlbumDetails";

} // verus!
