use vstd::prelude::*;

verus! {

pub const ID: &'static str = "playlist.getDetails";

} // verus!
