use base64::Engine;
use cipher::generic_array::GenericArray;
use cipher::{BlockEncrypt, KeyInit};
use jiosaavn_api::common::constants::USER_AGENTS;
use jiosaavn_api::common::helpers::{
    create_download_links, create_image_links, decrypt_media_bytes, fetch_query, keep_json, pick_user_agent,
    station_entity, strip_pkcs5_padding, user_agent_or_first,
};
use jiosaavn_api::common::types::DownloadLink;

fn pairs(links: &[DownloadLink]) -> Vec<(String, String)> {
    links.iter().map(|l| (l.quality.clone(), l.url.clone())).collect()
}

fn encrypt_media_url(url: &str) -> String {
    encrypt_bytes(url.as_bytes())
}

fn encrypt_bytes(plain: &[u8]) -> String {
    let cipher = des::Des::new_from_slice(b"38346591").unwrap();
    let mut data = plain.to_vec();
    let pad = 8 - data.len() % 8;
    data.extend(std::iter::repeat(pad as u8).take(pad));
    for chunk in data.chunks_mut(8) {
        let mut block = GenericArray::clone_from_slice(chunk);
        cipher.encrypt_block(&mut block);
        chunk.copy_from_slice(&block);
    }
    base64::engine::general_purpose::STANDARD.encode(data)
}

fn owned(v: &[(&str, &str)]) -> Vec<(String, String)> {
    v.iter().map(|(a, b)| (a.to_string(), b.to_string())).collect()
}

#[test]
fn image_links_resize_the_150_marker() {
    let links = create_image_links("http://c.saavncdn.com/191/Aashiqui-2-Hindi-2013-150x150.jpg");
    assert_eq!(
        pairs(&links),
        owned(&[
            ("50x50", "https://c.saavncdn.com/191/Aashiqui-2-Hindi-2013-50x50.jpg"),
            ("150x150", "https://c.saavncdn.com/191/Aashiqui-2-Hindi-2013-150x150.jpg"),
            ("500x500", "https://c.saavncdn.com/191/Aashiqui-2-Hindi-2013-500x500.jpg"),
        ])
    );
}

#[test]
fn image_links_resize_the_50_marker() {
    let links = create_image_links("https://c.saavncdn.com/a-50x50.jpg");
    assert_eq!(
        pairs(&links),
        owned(&[
            ("50x50", "https://c.saavncdn.com/a-50x50.jpg"),
            ("150x150", "https://c.saavncdn.com/a-150x150.jpg"),
            ("500x500", "https://c.saavncdn.com/a-500x500.jpg"),
        ])
    );
}

#[test]
fn image_links_without_marker_share_the_address() {
    let links = create_image_links("http://c.saavncdn.com/artist-default.png");
    for (quality, (q, url)) in ["50x50", "150x150", "500x500"].iter().zip(pairs(&links)) {
        assert_eq!(&q, quality);
        assert_eq!(url, "https://c.saavncdn.com/artist-default.png");
    }
}

#[test]
fn image_links_of_an_empty_address() {
    assert!(create_image_links("").is_empty());
}

#[test]
fn image_links_keep_other_schemes() {
    let links = create_image_links("ftp://x/http://150x150");
    assert_eq!(links[2].url, "ftp://x/http://500x500");
}

#[test]
fn download_links_of_an_encrypted_address() {
    let plain = "https://aac.saavncdn.com/815/abc_96.mp4";
    let links = create_download_links(&encrypt_media_url(plain));
    assert_eq!(
        pairs(&links),
        owned(&[
            ("12kbps", "https://aac.saavncdn.com/815/abc_12.mp4"),
            ("48kbps", "https://aac.saavncdn.com/815/abc_48.mp4"),
            ("96kbps", "https://aac.saavncdn.com/815/abc_96.mp4"),
            ("160kbps", "https://aac.saavncdn.com/815/abc_160.mp4"),
            ("320kbps", "https://aac.saavncdn.com/815/abc_320.mp4"),
        ])
    );
}

#[test]
fn download_links_of_a_block_aligned_address() {
    // 16 bytes: PKCS#5 adds a whole block of padding.
    let plain = "http://a.b/c_96x";
    assert_eq!(plain.len(), 16);
    let links = create_download_links(&encrypt_media_url(plain));
    assert_eq!(links.len(), 5);
    assert_eq!(links[4].url, "http://a.b/c_320x");
}

#[test]
fn download_links_of_bad_input_are_empty() {
    assert!(create_download_links("").is_empty());
    assert!(create_download_links("not base64 !!").is_empty());
    // decrypts to bytes that are not UTF-8
    assert!(create_download_links(&encrypt_bytes(&[0xff, 0xfe, 0x41])).is_empty());
}

#[test]
fn padding_is_stripped_only_when_well_formed() {
    assert_eq!(strip_pkcs5_padding(vec![1, 2, 3, 5, 5, 5, 5, 5]), vec![1, 2, 3]);
    assert_eq!(strip_pkcs5_padding(vec![8; 8]), Vec::<u8>::new());
    assert_eq!(strip_pkcs5_padding(vec![1, 2, 3, 4, 5, 5, 2, 5]), vec![1, 2, 3, 4, 5, 5, 2, 5]);
    assert_eq!(strip_pkcs5_padding(vec![1, 2, 0]), vec![1, 2, 0]);
    assert_eq!(strip_pkcs5_padding(vec![1, 9]), vec![1, 9]);
    assert_eq!(strip_pkcs5_padding(vec![1, 2, 5]), vec![1, 2, 5]);
    assert_eq!(strip_pkcs5_padding(vec![]), Vec::<u8>::new());
}

#[test]
fn decryption_keeps_a_trailing_partial_block() {
    let key = b"38346591".to_vec();
    let data: Vec<u8> = (0u8..11).collect();
    let out = decrypt_media_bytes(&key, &data);
    assert_eq!(out.len(), 11);
    assert_eq!(&out[8..], &data[8..]);
    assert_ne!(&out[..8], &data[..8]);
}

#[test]
fn query_parameters_of_a_call() {
    let q = fetch_query("song.getDetails", vec![("pids".to_string(), "abc".to_string())], None);
    assert_eq!(
        q,
        owned(&[
            ("__call", "song.getDetails"),
            ("_format", "json"),
            ("_marker", "0"),
            ("api_version", "4"),
            ("ctx", "web6dot0"),
            ("pids", "abc"),
        ])
    );
    let q = fetch_query("webradio.getSong", vec![], Some("android"));
    assert_eq!(q[4], ("ctx".to_string(), "android".to_string()));
    assert_eq!(q.len(), 5);
}

#[test]
fn user_agent_is_one_of_the_known_ones() {
    for _ in 0..20 {
        assert!(USER_AGENTS.contains(&pick_user_agent()));
    }
}

#[test]
fn user_agent_falls_back_to_the_first() {
    assert_eq!(user_agent_or_first(None), USER_AGENTS[0]);
    assert_eq!(user_agent_or_first(Some(USER_AGENTS[3])), USER_AGENTS[3]);
    assert_eq!(user_agent_or_first(Some("other")), "other");
}

#[test]
fn station_entity_is_a_json_list_of_the_encoded_id() {
    assert_eq!(station_entity("abc"), "[\"abc\"]");
    assert_eq!(station_entity("a b/c\"é"), "[\"a%20b%2Fc%22%C3%A9\"]");
    assert_eq!(station_entity("x-_.~9"), "[\"x-_.~9\"]");
}

#[test]
fn json_text_is_kept_only_when_it_parses() {
    assert_eq!(keep_json(Some("[\"hindi\",\"english\"]".to_string())), Some("[\"hindi\",\"english\"]".to_string()));
    assert_eq!(keep_json(Some("not json".to_string())), None);
    assert_eq!(keep_json(Some("".to_string())), None);
    assert_eq!(keep_json(None), None);
}
