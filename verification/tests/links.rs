use jiosaavn_api::common::links::{entity_link_token, playlist_link_token};
use regex::Regex;

fn entity_by_regex(link: &str, entity: &str) -> Option<String> {
    let re = Regex::new(&format!(r"jiosaavn\.com/{entity}/[^/]+/([^/]+)$")).unwrap();
    re.captures(link).map(|cap| cap.get(1).map(|m| m.as_str()).unwrap_or("").to_string())
}

fn playlist_by_regex(link: &str) -> Option<String> {
    let re = Regex::new(r"(?:jiosaavn\.com|saavn\.com)/(?:featured|s/playlist)/[^/]+/([^/]+)$|/([^/]+)$").unwrap();
    re.captures(link).map(|cap| cap.iter().skip(1).flatten().map(|m| m.as_str()).last().unwrap_or("").to_string())
}

const LINKS: [&str; 14] = [
    "https://www.jiosaavn.com/song/tum-hi-ho/EToxUyFpcwQ",
    "https://www.jiosaavn.com/album/aashiqui-2/dCbh-xwPKGo_",
    "https://www.jiosaavn.com/artist/arijit-singh-songs/LlRWpHzy3Hk_",
    "https://www.jiosaavn.com/song/tum-hi-ho/",
    "https://www.jiosaavn.com/song/EToxUyFpcwQ",
    "https://www.jiosaavn.com/song/a/b/c",
    "jiosaavn.com/song/x/y",
    "https://jiosaavn.com/song/x/y?ref=1",
    "https://www.jiosaavn.com/featured/best-of-90s/dXbcR1HE1G0_",
    "https://www.jiosaavn.com/s/playlist/abc/list/Xyz_123",
    "https://example.com/song/x/y",
    "no slashes at all",
    "ends/with/",
    "",
];

#[test]
fn song_album_artist_tokens_agree_with_the_pattern() {
    for link in LINKS {
        for entity in ["song", "album", "artist"] {
            assert_eq!(entity_link_token(link, entity), entity_by_regex(link, entity), "{entity} token of {link:?}");
        }
    }
}

#[test]
fn playlist_tokens_agree_with_the_pattern() {
    for link in LINKS {
        assert_eq!(playlist_link_token(link), playlist_by_regex(link), "playlist token of {link:?}");
    }
}

#[test]
fn song_token_is_the_last_segment() {
    assert_eq!(entity_link_token("https://www.jiosaavn.com/song/tum-hi-ho/EToxUyFpcwQ", "song"), Some("EToxUyFpcwQ".to_string()));
    assert_eq!(entity_link_token("https://www.jiosaavn.com/song/tum-hi-ho/EToxUyFpcwQ", "album"), None);
    assert_eq!(playlist_link_token("https://www.jiosaavn.com/featured/x/ID_1"), Some("ID_1".to_string()));
    assert_eq!(playlist_link_token("plain"), None);
}
