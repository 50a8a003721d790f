use vstd::prelude::*;
use base64::Engine;
use cipher::generic_array::GenericArray;
use cipher::{BlockDecrypt, KeyInit};
use vstd::utf8::{decode_utf8, valid_utf8};
use crate::common::text::{
    contains_seq, law_replace_by_itself_is_identity, lemma_replace_after_prefix,
    replace_all, starts_with_seq, str_contains, str_replace, str_starts_with,
};
use crate::common::constants::USER_AGENTS;
use crate::common::types::{links_view, pairs_view, param, DownloadLink};
use rand::seq::SliceRandom;

verus! {

broadcast use vstd::string::group_string_axioms;

/// The sizes in which an image is offered, smallest first.
pub open spec fn image_qualities() -> Seq<Seq<char>> {
    seq!["50x50"@, "150x150"@, "500x500"@]
}

/// `link` with a leading `http://` turned into `https://`.
pub open spec fn secure_link(link: Seq<char>) -> Seq<char> {
    if starts_with_seq(link, "http://"@) {
        "https://"@ + link.skip("http://"@.len() as int)
    } else {
        link
    }
}

/// The address of the `quality` rendition of the image at `link`: the size marker
/// `150x150`, or failing that `50x50`, replaced by `quality`; the link itself when it has neither.
pub open spec fn sized_image_url(link: Seq<char>, quality: Seq<char>) -> Seq<char> {
    if contains_seq(link, "150x150"@) {
        replace_all(link, "150x150"@, quality)
    } else if contains_seq(link, "50x50"@) {
        replace_all(link, "50x50"@, quality)
    } else {
        link
    }
}

/// The image links of `link`: none for an empty link, else one per image size.
pub open spec fn image_links_spec(link: Seq<char>) -> Seq<(Seq<char>, Seq<char>)> {
    if link.len() == 0 {
        seq![]
    } else {
        image_qualities().map_values(|q: Seq<char>| (q, sized_image_url(secure_link(link), q)))
    }
}

/// An image address without a size marker gives three links to that same address
/// (with `http://` upgraded to `https://`).
pub proof fn law_unsized_image_links_share_address(link: Seq<char>)
    requires
        link.len() > 0,
        !contains_seq(secure_link(link), "150x150"@),
        !contains_seq(secure_link(link), "50x50"@),
    ensures
        image_links_spec(link) == seq![
            ("50x50"@, secure_link(link)),
            ("150x150"@, secure_link(link)),
            ("500x500"@, secure_link(link)),
        ],
{
    assert(image_links_spec(link) =~= seq![
        ("50x50"@, secure_link(link)),
        ("150x150"@, secure_link(link)),
        ("500x500"@, secure_link(link)),
    ]);
}

/// Every image link of an `http://` address is an `https://` address: resizing never
/// touches the upgraded scheme.
pub proof fn law_image_links_are_secure(link: Seq<char>)
    requires
        starts_with_seq(link, "http://"@),
    ensures
        forall|k: int| 0 <= k < image_links_spec(link).len() ==>
            starts_with_seq(#[trigger] image_links_spec(link)[k].1, "https://"@),
{
    reveal_strlit("http://");
    reveal_strlit("https://");
    reveal_strlit("150x150");
    reveal_strlit("50x50");
    let scheme = "https://"@;
    let rest = link.skip(7);
    let secured = secure_link(link);
    assert(secured == scheme + rest);
    assert forall|k: int| 0 <= k < image_links_spec(link).len() implies
        starts_with_seq(#[trigger] image_links_spec(link)[k].1, "https://"@) by {
        let q = image_qualities()[k];
        let url = sized_image_url(secured, q);
        assert(image_links_spec(link)[k].1 == url);
        if contains_seq(secured, "150x150"@) {
            lemma_replace_after_prefix(scheme, rest, "150x150"@, q);
        } else if contains_seq(secured, "50x50"@) {
            lemma_replace_after_prefix(scheme, rest, "50x50"@, q);
        }
        assert(url.subrange(0, 8) =~= scheme);
    }
}

fn sized_image_link(link: &str, quality: &str) -> (r: DownloadLink)
    ensures
        r.quality@ == quality@,
        r.url@ == sized_image_url(link@, quality@),
{
    proof {
        reveal_strlit("150x150");
        reveal_strlit("50x50");
    }
    let url = if str_contains(link, "150x150") {
        str_replace(link, "150x150", quality)
    } else if str_contains(link, "50x50") {
        str_replace(link, "50x50", quality)
    } else {
        String::from_str(link)
    };
    DownloadLink { quality: String::from_str(quality), url }
}

/// The links to the 50x50, 150x150 and 500x500 renditions of the image at `link`.
pub fn create_image_links(link: &str) -> (r: Vec<DownloadLink>)
    ensures
        links_view(r@) == image_links_spec(link@),
{
    if link.unicode_len() == 0 {
        let r: Vec<DownloadLink> = Vec::new();
        assert(links_view(r@) =~= image_links_spec(link@));
        return r;
    }
    proof {
        reveal_strlit("http://");
        reveal_strlit("https://");
    }
    let cleaned = if str_starts_with(link, "http://") {
        let rest = link.substring_char(7, link.unicode_len());
        String::from_str("https://").concat(rest)
    } else {
        String::from_str(link)
    };
    assert(cleaned@ == secure_link(link@));
    let mut r: Vec<DownloadLink> = Vec::new();
    r.push(sized_image_link(cleaned.as_str(), "50x50"));
    r.push(sized_image_link(cleaned.as_str(), "150x150"));
    r.push(sized_image_link(cleaned.as_str(), "500x500"));
    assert(links_view(r@) =~= image_links_spec(link@));
    r
}

/// What base64's `STANDARD` engine decodes `input` to; `None` where it reports an error.
pub uninterp spec fn base64_standard_decode(input: Seq<u8>) -> Option<Seq<u8>>;

/// The plaintext of the 8-byte `block` under DES with the 8-byte `key`.
pub uninterp spec fn des_block_decrypt(key: Seq<u8>, block: Seq<u8>) -> Seq<u8>;

#[verifier::external_type_specification]
#[verifier::external_body]
pub struct ExDecodeError(base64::DecodeError);

#[verifier::external_type_specification]
#[verifier::external_body]
pub struct ExFromUtf8Error(std::string::FromUtf8Error);

/// Calls `Engine::decode` of `base64::engine::general_purpose::STANDARD`.
/// Claimed: the outcome depends on the input bytes alone (named `base64_standard_decode`);
/// what the decoding is, is not stated.
#[verifier::external_body]
fn base64_decode(input: &[u8]) -> (r: Result<Vec<u8>, base64::DecodeError>)
    ensures
        match r {
            Ok(v) => base64_standard_decode(input@) == Some(v@),
            Err(_) => base64_standard_decode(input@) is None,
        },
{
    base64::engine::general_purpose::STANDARD.decode(input)
}

/// Builds `des::Des` from the key with `KeyInit::new` and applies
/// `BlockDecrypt::decrypt_block` to one block.
/// Claimed: the plaintext depends on key and block alone (named `des_block_decrypt`);
/// the DES algorithm itself is not stated.
#[verifier::external_body]
fn des_decrypt_block(key: &[u8], block: &[u8]) -> (r: Vec<u8>)
    requires
        key@.len() == 8,
        block@.len() == 8,
    ensures
        r@ == des_block_decrypt(key@, block@),
{
    let cipher = des::Des::new(GenericArray::from_slice(key));
    let mut data = GenericArray::clone_from_slice(block);
    cipher.decrypt_block(&mut data);
    data.to_vec()
}

/// Calls `String::from_utf8`, which succeeds exactly on well-formed UTF-8 and then holds
/// the decoded characters (as vstd's `valid_utf8` and `decode_utf8` describe them).
#[verifier::external_body]
fn string_from_utf8(bytes: Vec<u8>) -> (r: Result<String, std::string::FromUtf8Error>)
    ensures
        match r {
            Ok(s) => valid_utf8(bytes@) && s@ == decode_utf8(bytes@),
            Err(_) => !valid_utf8(bytes@),
        },
{
    String::from_utf8(bytes)
}

/// The key with which media addresses are encrypted: the ASCII bytes of `38346591`.
pub open spec fn media_key() -> Seq<u8> {
    seq![51u8, 56u8, 51u8, 52u8, 54u8, 53u8, 57u8, 49u8]
}

/// Every whole 8-byte block of `data` decrypted in place; a trailing partial block is kept as is.
pub open spec fn decrypt_blocks(key: Seq<u8>, data: Seq<u8>) -> Seq<u8>
    decreases data.len(),
{
    if data.len() < 8 {
        data
    } else {
        des_block_decrypt(key, data.take(8)) + decrypt_blocks(key, data.skip(8))
    }
}

/// PKCS#5 padding removed: when the last byte `p` is in `1..=8` and the last `p` bytes all
/// equal `p`, they are dropped; otherwise (also when `p` exceeds the length) `data` stays as is.
pub open spec fn pkcs5_unpad(data: Seq<u8>) -> Seq<u8> {
    if data.len() == 0 {
        data
    } else {
        let p = data.last() as int;
        if 0 < p <= 8 && p <= data.len()
            && (forall|i: int| data.len() - p <= i < data.len() ==> data[i] == p) {
            data.take(data.len() - p)
        } else {
            data
        }
    }
}

/// The bitrates offered for download: (marker in the address, quality label).
pub open spec fn download_qualities() -> Seq<(Seq<char>, Seq<char>)> {
    seq![
        ("_12"@, "12kbps"@),
        ("_48"@, "48kbps"@),
        ("_96"@, "96kbps"@),
        ("_160"@, "160kbps"@),
        ("_320"@, "320kbps"@),
    ]
}

/// The download links of an encrypted media address: none when it is empty, is not
/// base64, or does not decrypt to UTF-8 text; else one per bitrate, the text with each
/// `_96` replaced by the bitrate's marker.
pub open spec fn download_links_spec(encrypted: Seq<char>) -> Seq<(Seq<char>, Seq<char>)> {
    if encrypted.len() == 0 {
        seq![]
    } else {
        match base64_standard_decode(vstd::utf8::encode_utf8(encrypted)) {
            None => seq![],
            Some(bytes) => {
                let plain = pkcs5_unpad(decrypt_blocks(media_key(), bytes));
                if valid_utf8(plain) {
                    let text = decode_utf8(plain);
                    download_qualities().map_values(
                        |q: (Seq<char>, Seq<char>)| (q.1, replace_all(text, "_96"@, q.0)),
                    )
                } else {
                    seq![]
                }
            },
        }
    }
}

/// Download links come five at a time or not at all; the 96 kbps link is the decrypted
/// address itself, and every other link is it with `_96` turned into its own marker.
pub proof fn law_download_links_derive_from_96(encrypted: Seq<char>)
    ensures
        ({
            let links = download_links_spec(encrypted);
            ||| links.len() == 0
            ||| {
                &&& links.len() == 5
                &&& forall|k: int| 0 <= k < 5 ==> #[trigger] links[k].0 == download_qualities()[k].1
                &&& forall|k: int| 0 <= k < 5 ==> #[trigger] links[k].1 == replace_all(links[2].1, "_96"@, download_qualities()[k].0)
            }
        }),
{
    reveal_strlit("_96");
    let links = download_links_spec(encrypted);
    if links.len() != 0 {
        let bytes = base64_standard_decode(vstd::utf8::encode_utf8(encrypted))->Some_0;
        let text = decode_utf8(pkcs5_unpad(decrypt_blocks(media_key(), bytes)));
        law_replace_by_itself_is_identity(text, "_96"@);
        assert(links[2].1 == text);
        assert forall|k: int| 0 <= k < 5 implies #[trigger] links[k].1 == replace_all(links[2].1, "_96"@, download_qualities()[k].0) by {
            assert(links[k].1 == replace_all(text, "_96"@, download_qualities()[k].0));
        }
    }
}

/// Decrypts every whole 8-byte block of `data`, keeping a trailing partial block.
pub fn decrypt_media_bytes(key: &Vec<u8>, data: &Vec<u8>) -> (r: Vec<u8>)
    requires
        key@.len() == 8,
    ensures
        r@ == decrypt_blocks(key@, data@),
{
    let n = data.len();
    let mut out: Vec<u8> = Vec::new();
    let mut i: usize = 0;
    assert(data@.skip(0) =~= data@);
    while n - i >= 8
        invariant
            n == data@.len(),
            key@.len() == 8,
            i <= n,
            decrypt_blocks(key@, data@) == out@ + decrypt_blocks(key@, data@.skip(i as int)),
        decreases n - i,
    {
        let mut block: Vec<u8> = Vec::new();
        let mut k: usize = 0;
        while k < 8
            invariant
                i + 8 <= n,
                n == data@.len(),
                k <= 8,
                block@ == data@.subrange(i as int, i + k),
            decreases 8 - k,
        {
            block.push(data[i + k]);
            k = k + 1;
            assert(block@ =~= data@.subrange(i as int, i + k));
        }
        let mut plain = des_decrypt_block(key.as_slice(), block.as_slice());
        proof {
            let rest = data@.skip(i as int);
            assert(rest.take(8) =~= block@);
            assert(rest.skip(8) =~= data@.skip(i + 8));
        }
        let ghost before = out@;
        out.append(&mut plain);
        assert(out@ =~= before + des_block_decrypt(key@, block@));
        i = i + 8;
    }
    let start = i;
    let ghost before = out@;
    assert(decrypt_blocks(key@, data@.skip(start as int)) == data@.skip(start as int));
    while i < n
        invariant
            start <= i <= n,
            n == data@.len(),
            out@ == before + data@.subrange(start as int, i as int),
        decreases n - i,
    {
        out.push(data[i]);
        i = i + 1;
        assert(out@ =~= before + data@.subrange(start as int, i as int));
    }
    assert(data@.subrange(start as int, n as int) =~= data@.skip(start as int));
    out
}

/// `data` with its PKCS#5 padding removed (see `pkcs5_unpad`).
pub fn strip_pkcs5_padding(padded: Vec<u8>) -> (r: Vec<u8>)
    ensures
        r@ == pkcs5_unpad(padded@),
{
    let mut data = padded;
    let len = data.len();
    if len == 0 {
        return data;
    }
    let p = data[len - 1] as usize;
    if p == 0 || p > 8 || p > len {
        return data;
    }
    let mut i = len - p;
    while i < len
        invariant
            len == data@.len(),
            data@ == padded@,
            p == data@.last() as int,
            0 < p <= 8,
            p <= len,
            len - p <= i <= len,
            forall|j: int| len - p <= j < i ==> data@[j] == p,
        decreases len - i,
    {
        if data[i] as usize != p {
            assert(data@[i as int] != p);
            return data;
        }
        i = i + 1;
    }
    data.truncate(len - p);
    data
}

fn bitrate_link(text: &str, marker: &str, quality: &str) -> (r: DownloadLink)
    ensures
        r.quality@ == quality@,
        r.url@ == replace_all(text@, "_96"@, marker@),
{
    proof {
        reveal_strlit("_96");
    }
    DownloadLink { quality: String::from_str(quality), url: str_replace(text, "_96", marker) }
}

/// The links to the 12, 48, 96, 160 and 320 kbps renditions of a song, from the
/// encrypted media address that the catalogue hands out.
pub fn create_download_links(encrypted_media_url: &str) -> (r: Vec<DownloadLink>)
    ensures
        links_view(r@) == download_links_spec(encrypted_media_url@),
{
    let empty: Vec<DownloadLink> = Vec::new();
    assert(links_view(empty@) =~= Seq::<(Seq<char>, Seq<char>)>::empty());
    if encrypted_media_url.is_empty() {
        return empty;
    }
    let encrypted_bytes = match base64_decode(encrypted_media_url.as_bytes()) {
        Ok(bytes) => bytes,
        Err(_) => return empty,
    };
    let key: Vec<u8> = vec![51u8, 56u8, 51u8, 52u8, 54u8, 53u8, 57u8, 49u8];
    assert(key@ =~= media_key());
    let decrypted = decrypt_media_bytes(&key, &encrypted_bytes);
    let unpadded = strip_pkcs5_padding(decrypted);
    let text = match string_from_utf8(unpadded) {
        Ok(s) => s,
        Err(_) => return empty,
    };
    let mut r: Vec<DownloadLink> = Vec::new();
    r.push(bitrate_link(text.as_str(), "_12", "12kbps"));
    r.push(bitrate_link(text.as_str(), "_48", "48kbps"));
    r.push(bitrate_link(text.as_str(), "_96", "96kbps"));
    r.push(bitrate_link(text.as_str(), "_160", "160kbps"));
    r.push(bitrate_link(text.as_str(), "_320", "320kbps"));
    assert(links_view(r@) =~= download_links_spec(encrypted_media_url@));
    r
}

/// Whether `serde_json::from_str::<serde_json::Value>` accepts `text` as JSON.
pub uninterp spec fn json_parses(text: Seq<char>) -> bool;

/// Calls `serde_json::from_str::<serde_json::Value>` and reports whether it succeeded.
/// Claimed: the answer depends on the text alone (named `json_parses`);
/// the JSON grammar is not stated.
#[verifier::external_body]
pub(crate) fn is_json_text(text: &str) -> (r: bool)
    ensures
        r == json_parses(text@),
{
    serde_json::from_str::<serde_json::Value>(text).is_ok()
}

/// The text of `o` kept only when it is JSON: `out` is `o` when `o` holds JSON text, else absent.
pub open spec fn json_kept(o: Option<String>, out: Option<String>) -> bool {
    match o {
        Some(s) => if json_parses(s@) { out == Some(s) } else { out is None },
        None => out is None,
    }
}

/// `o` when it holds JSON text, else nothing (`and_then(|t| serde_json::from_str(&t).ok())`,
/// the JSON value kept as its text).
pub fn keep_json(o: Option<String>) -> (r: Option<String>)
    ensures
        json_kept(o, r),
{
    match o {
        Some(s) => if is_json_text(s.as_str()) { Some(s) } else { None },
        None => None,
    }
}

/// The query string parameters of a call to the catalogue: the call's name, the JSON
/// format, marker 0, API version 4, the client context (`web6dot0` unless one is given),
/// then the call's own parameters in order.
pub open spec fn fetch_query_spec(
    call_name: Seq<char>,
    extra: Seq<(Seq<char>, Seq<char>)>,
    context: Option<Seq<char>>,
) -> Seq<(Seq<char>, Seq<char>)> {
    let ctx = match context {
        Some(c) => c,
        None => "web6dot0"@,
    };
    seq![
        ("__call"@, call_name),
        ("_format"@, "json"@),
        ("_marker"@, "0"@),
        ("api_version"@, "4"@),
        ("ctx"@, ctx),
    ] + extra
}

/// The query string parameters of a call to the catalogue (see `fetch_query_spec`).
pub fn fetch_query(call_name: &str, extra_params: Vec<(String, String)>, context: Option<&str>) -> (r: Vec<(String, String)>)
    ensures
        pairs_view(r@) == fetch_query_spec(
            call_name@,
            pairs_view(extra_params@),
            match context {
                Some(c) => Some(c@),
                None => None,
            },
        ),
{
    let ctx = match context {
        Some(c) => c,
        None => "web6dot0",
    };
    let mut query: Vec<(String, String)> = Vec::new();
    query.push(param("__call", String::from_str(call_name)));
    query.push(param("_format", String::from_str("json")));
    query.push(param("_marker", String::from_str("0")));
    query.push(param("api_version", String::from_str("4")));
    query.push(param("ctx", String::from_str(ctx)));
    let ghost head = query@;
    let mut extra = extra_params;
    query.append(&mut extra);
    assert(pairs_view(query@) =~= pairs_view(head) + pairs_view(extra_params@));
    assert(pairs_view(query@) =~= fetch_query_spec(
        call_name@,
        pairs_view(extra_params@),
        match context {
            Some(c) => Some(c@),
            None => None,
        },
    ));
    query
}

/// Calls `SliceRandom::choose` of rand with a `rand::thread_rng()`.
/// Claimed, as rand's source shows: nothing exactly when the slice is empty, else one of its
/// elements. Which element is left open: it is drawn at random.
#[verifier::external_body]
fn choose_one(items: &[&'static str]) -> (r: Option<&'static str>)
    ensures
        items@.len() == 0 <==> r is None,
        r matches Some(x) ==> items@.contains(x),
{
    items.choose(&mut rand::thread_rng()).copied()
}

/// The browser identity that a draw from `USER_AGENTS` gives: the drawn one, or the
/// first of the list when nothing was drawn.
pub fn user_agent_or_first(drawn: Option<&'static str>) -> (r: &'static str)
    ensures
        r == match drawn {
            Some(agent) => agent,
            None => USER_AGENTS[0],
        },
{
    match drawn {
        Some(agent) => agent,
        None => USER_AGENTS[0],
    }
}

/// A browser identity for a request, drawn at random from `USER_AGENTS`.
pub fn pick_user_agent() -> (r: &'static str)
    ensures
        USER_AGENTS@.contains(r),
{
    let drawn = choose_one(USER_AGENTS.as_slice());
    let r = user_agent_or_first(drawn);
    proof {
        if drawn is None {
            assert(USER_AGENTS@[0] == USER_AGENTS[0]);
        }
    }
    r
}

/// A byte that URL encoding leaves as it is: an ASCII letter or digit, `-`, `.`, `_` or `~`.
pub open spec fn url_safe_byte(b: u8) -> bool {
    ||| 48 <= b <= 57
    ||| 65 <= b <= 90
    ||| 97 <= b <= 122
    ||| b == 45 || b == 46 || b == 95 || b == 126
}

/// The upper-case hexadecimal digit for `d` in `0..16`.
pub open spec fn hex_digit_upper(d: int) -> char {
    seq!['0', '1', '2', '3', '4', '5', '6', '7', '8', '9', 'A', 'B', 'C', 'D', 'E', 'F'][d]
}

/// Percent-encoding of `bytes`: safe bytes kept, every other byte written `%XY` in upper-case hex.
pub open spec fn percent_encode(bytes: Seq<u8>) -> Seq<char>
    decreases bytes.len(),
{
    if bytes.len() == 0 {
        seq![]
    } else {
        let b = bytes[0];
        let head = if url_safe_byte(b) {
            seq![b as char]
        } else {
            seq!['%', hex_digit_upper(b as int / 16), hex_digit_upper(b as int % 16)]
        };
        head + percent_encode(bytes.skip(1))
    }
}

/// Calls `urlencoding::encode`. Claimed, as its documentation and source show: every byte of
/// the UTF-8 text is kept when it is an ASCII letter or digit, `-`, `_`, `.` or `~`, and is
/// written `%` and two upper-case hex digits otherwise.
#[verifier::external_body]
fn url_encode(data: &str) -> (r: String)
    ensures
        r@ == percent_encode(vstd::utf8::encode_utf8(data@)),
{
    urlencoding::encode(data).into_owned()
}

#[verifier::external_type_specification]
#[verifier::external_body]
pub struct ExJsonError(serde_json::Error);

/// A character that JSON writes in a string as it is (not `"`, `\\` or a control character).
pub open spec fn json_plain_char(c: char) -> bool {
    c != '"' && c != '\\' && (c as u32) >= 0x20
}

/// What `serde_json::to_string` writes for a list holding the one string `s`.
pub uninterp spec fn json_single_string_array(s: Seq<char>) -> Seq<char>;

/// Calls `serde_json::to_string` on a list holding the one string `item`.
/// Claimed: serialising a list of strings succeeds (serde_json fails only where a `Serialize`
/// impl fails or a map has non-string keys); the text depends on the string alone (named
/// `json_single_string_array`) and, when no character of it needs escaping, is `["` + item + `"]`,
/// as serde_json's compact writer and its escape table show. Escaping itself is not stated.
#[verifier::external_body]
fn json_array_of_one(item: String) -> (r: Result<String, serde_json::Error>)
    ensures
        r is Ok,
        r matches Ok(t) ==> t@ == json_single_string_array(item@)
            && ((forall|i: int| 0 <= i < item@.len() ==> json_plain_char(#[trigger] item@[i]))
                ==> t@ == seq!['[', '"'] + item@ + seq!['"', ']']),
{
    serde_json::to_string(&vec![item])
}

proof fn lemma_percent_encode_plain(bytes: Seq<u8>)
    ensures
        forall|i: int| 0 <= i < percent_encode(bytes).len() ==> json_plain_char(#[trigger] percent_encode(bytes)[i]),
    decreases bytes.len(),
{
    if bytes.len() > 0 {
        lemma_percent_encode_plain(bytes.skip(1));
        let b = bytes[0];
        let e = percent_encode(bytes);
        let t = percent_encode(bytes.skip(1));
        let head = if url_safe_byte(b) {
            seq![b as char]
        } else {
            seq!['%', hex_digit_upper(b as int / 16), hex_digit_upper(b as int % 16)]
        };
        assert(e == head + t);
        assert forall|i: int| 0 <= i < e.len() implies json_plain_char(#[trigger] e[i]) by {
            if i < head.len() {
                if !url_safe_byte(b) && i > 0 {
                    let d = if i == 1 { b as int / 16 } else { b as int % 16 };
                    assert(0 <= d < 16);
                    assert(e[i] == hex_digit_upper(d));
                    assert(json_plain_char(hex_digit_upper(d))) by {
                        let h = seq!['0', '1', '2', '3', '4', '5', '6', '7', '8', '9', 'A', 'B', 'C', 'D', 'E', 'F'];
                        assert(h[d] == hex_digit_upper(d));
                        assert(forall|k: int| 0 <= k < 16 ==> json_plain_char(#[trigger] h[k]));
                    }
                }
            } else {
                assert(e[i] == t[i - head.len()]);
            }
        }
    }
}

/// The `entity_id` of a station request for a song: a JSON list holding the song's
/// URL-encoded id, `["<encoded id>"]`.
pub open spec fn station_entity_id(song_id: Seq<char>) -> Seq<char> {
    seq!['[', '"'] + percent_encode(vstd::utf8::encode_utf8(song_id)) + seq!['"', ']']
}

/// The `entity_id` of a station request for the song `song_id` (see `station_entity_id`).
pub fn station_entity(song_id: &str) -> (r: String)
    ensures
        r@ == station_entity_id(song_id@),
{
    let encoded = url_encode(song_id);
    proof {
        lemma_percent_encode_plain(vstd::utf8::encode_utf8(song_id@));
    }
    match json_array_of_one(encoded) {
        Ok(text) => text,
        Err(_) => String::new(),
    }
}

} // verus!
