pub mod albums;
pub mod artists;
pub mod playlists;
pub mod search;
pub mod songs;
