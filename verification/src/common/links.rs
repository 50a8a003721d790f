use vstd::prelude::*;
use crate::common::text::{chars_of, occurs_at, occurs_at_exec};

verus! {

broadcast use vstd::string::group_string_axioms;

/// No `/` in `s`.
pub open spec fn no_slash(s: Seq<char>) -> bool {
    forall|k: int| 0 <= k < s.len() ==> s[k] != '/'
}

/// The position of the last `/` in `s`, or -1 when there is none.
pub open spec fn last_slash(s: Seq<char>) -> int
    decreases s.len(),
{
    if s.len() == 0 {
        -1
    } else if s.last() == '/' {
        s.len() - 1
    } else {
        last_slash(s.drop_last())
    }
}

/// What follows the last `/` of `s`.
pub open spec fn last_segment(s: Seq<char>) -> Seq<char> {
    s.skip(last_slash(s) + 1)
}

/// `r` is `A/B` with `A` and `B` non-empty and free of `/`, the `/` at `j`.
pub open spec fn two_segments(r: Seq<char>, j: int) -> bool {
    &&& 0 < j < r.len() - 1
    &&& r[j] == '/'
    &&& no_slash(r.take(j))
    &&& no_slash(r.skip(j + 1))
}

/// The prefix `jiosaavn.com/<entity>/` of a catalogue page address.
pub open spec fn entity_prefix(entity: Seq<char>) -> Seq<char> {
    "jiosaavn.com/"@ + entity + seq!['/']
}

/// The pattern `jiosaavn\.com/<entity>/[^/]+/([^/]+)$` matches `link` from position `i`.
pub open spec fn entity_link_at(link: Seq<char>, entity: Seq<char>, i: int) -> bool {
    let p = entity_prefix(entity);
    occurs_at(link, p, i) && exists|j: int| #[trigger] two_segments(link.skip(i + p.len()), j)
}

/// The token that the pattern `jiosaavn\.com/<entity>/[^/]+/([^/]+)$` captures in
/// `link`: `None` when it does not match anywhere; else its group, which always is
/// what follows the last `/`.
pub open spec fn entity_token_spec(link: Seq<char>, entity: Seq<char>) -> Option<Seq<char>> {
    if exists|i: int| entity_link_at(link, entity, i) {
        Some(last_segment(link))
    } else {
        None
    }
}

/// The token that the playlist pattern
/// `(?:jiosaavn\.com|saavn\.com)/(?:featured|s/playlist)/[^/]+/([^/]+)$|/([^/]+)$`
/// captures in `link`. Its second branch matches exactly when the text after the last
/// `/` is non-empty, and every match of the first branch is also one of the second,
/// capturing the same text; so the token is what follows the last `/`, when that is non-empty.
pub open spec fn playlist_token_spec(link: Seq<char>) -> Option<Seq<char>> {
    if 0 <= last_slash(link) && last_slash(link) < link.len() - 1 {
        Some(last_segment(link))
    } else {
        None
    }
}

proof fn lemma_last_slash(s: Seq<char>)
    ensures
        -1 <= last_slash(s) < s.len(),
        last_slash(s) >= 0 ==> s[last_slash(s)] == '/',
        forall|k: int| last_slash(s) < k < s.len() ==> s[k] != '/',
    decreases s.len(),
{
    if s.len() > 0 && s.last() != '/' {
        lemma_last_slash(s.drop_last());
        assert forall|k: int| last_slash(s) < k < s.len() implies s[k] != '/' by {
            if k < s.len() - 1 {
                assert(s[k] == s.drop_last()[k]);
            }
        }
    }
}

/// A link token is never empty, holds no `/`, and ends the address right after a `/`.
pub proof fn law_link_token_is_final_segment(link: Seq<char>, entity: Seq<char>)
    ensures
        ({
            let tokens = seq![entity_token_spec(link, entity), playlist_token_spec(link)];
            forall|k: int| 0 <= k < 2 ==> (#[trigger] tokens[k] matches Some(t) ==> {
                &&& t.len() > 0
                &&& no_slash(t)
                &&& link == link.take(link.len() - t.len() - 1) + seq!['/'] + t
            })
        }),
{
    lemma_last_slash(link);
    let ls = last_slash(link);
    let t = last_segment(link);
    if entity_token_spec(link, entity) is Some {
        let i = choose|i: int| entity_link_at(link, entity, i);
        lemma_entity_link_at(link, entity, i);
    }
    if ls >= 0 && ls < link.len() - 1 {
        assert forall|k: int| 0 <= k < t.len() implies t[k] != '/' by {
            assert(t[k] == link[ls + 1 + k]);
        }
        assert(link.take(link.len() - t.len() - 1) + seq!['/'] + t =~= link);
    }
}

/// The position of the last `/` in `v`, or -1.
fn find_last_slash(v: &Vec<char>) -> (r: Option<usize>)
    ensures
        match r {
            Some(k) => k == last_slash(v@),
            None => last_slash(v@) == -1,
        },
{
    proof {
        lemma_last_slash(v@);
    }
    let mut i = v.len();
    while i > 0
        invariant
            i <= v.len(),
            forall|k: int| i <= k < v.len() ==> v@[k] != '/',
            -1 <= last_slash(v@) < v.len(),
            last_slash(v@) >= 0 ==> v@[last_slash(v@)] == '/',
            forall|k: int| last_slash(v@) < k < v.len() ==> v@[k] != '/',
        decreases i,
    {
        if v[i - 1] == '/' {
            return Some(i - 1);
        }
        i = i - 1;
    }
    None
}

/// The text of `s` from character position `from` to the end.
fn tail_from(s: &str, from: usize) -> (r: String)
    requires
        from <= s@.len(),
    ensures
        r@ == s@.skip(from as int),
{
    let n = s.unicode_len();
    let piece = s.substring_char(from, n);
    assert(piece@ =~= s@.skip(from as int));
    String::from_str(piece)
}

/// Whether `v[from..to]` holds no `/`.
fn slash_free(v: &Vec<char>, from: usize, to: usize) -> (r: bool)
    requires
        from <= to <= v.len(),
    ensures
        r == no_slash(v@.subrange(from as int, to as int)),
{
    let mut k = from;
    while k < to
        invariant
            from <= k <= to <= v.len(),
            forall|j: int| from <= j < k ==> v@[j] != '/',
        decreases to - k,
    {
        if v[k] == '/' {
            assert(v@.subrange(from as int, to as int)[k - from] == '/');
            return false;
        }
        k = k + 1;
    }
    assert forall|j: int| 0 <= j < to - from implies v@.subrange(from as int, to as int)[j] != '/' by {
        assert(v@.subrange(from as int, to as int)[j] == v@[from + j]);
    }
    true
}

/// Characterises a match position through the last `/` of the link.
proof fn lemma_entity_link_at(link: Seq<char>, entity: Seq<char>, i: int)
    requires
        occurs_at(link, entity_prefix(entity), i),
    ensures
        entity_link_at(link, entity, i) <==> ({
            let q = i + entity_prefix(entity).len();
            let ls = last_slash(link);
            &&& q < ls
            &&& ls < link.len() - 1
            &&& no_slash(link.subrange(q, ls))
        }),
{
    let p = entity_prefix(entity);
    let q = i + p.len();
    let ls = last_slash(link);
    let r = link.skip(q);
    lemma_last_slash(link);
    if exists|j: int| #[trigger] two_segments(r, j) {
        let j = choose|j: int| two_segments(r, j);
        assert(link[q + j] == '/');
        if q + j < ls {
            assert(r.skip(j + 1)[ls - q - j - 1] == link[ls]);
        }
        assert forall|k: int| q + j < k < link.len() implies link[k] != '/' by {
            assert(r.skip(j + 1)[k - q - j - 1] == link[k]);
        }
        assert(q + j == ls);
        assert forall|k: int| 0 <= k < ls - q implies #[trigger] link.subrange(q, ls)[k] != '/' by {
            assert(link.subrange(q, ls)[k] == r.take(j)[k]);
        }
    }
    if q < ls && ls < link.len() - 1 && no_slash(link.subrange(q, ls)) {
        let j = ls - q;
        assert forall|k: int| 0 <= k < j implies #[trigger] r.take(j)[k] != '/' by {
            assert(r.take(j)[k] == link.subrange(q, ls)[k]);
        }
        assert forall|k: int| 0 <= k < r.len() - j - 1 implies #[trigger] r.skip(j + 1)[k] != '/' by {
            assert(r.skip(j + 1)[k] == link[ls + 1 + k]);
        }
        assert(two_segments(r, j));
    }
}

/// The token of a catalogue page address `.../jiosaavn.com/<entity>/<slug>/<token>`,
/// as the pattern `jiosaavn\.com/<entity>/[^/]+/([^/]+)$` captures it.
pub fn entity_link_token(link: &str, entity: &str) -> (r: Option<String>)
    ensures
        match r {
            Some(t) => entity_token_spec(link@, entity@) == Some(t@),
            None => entity_token_spec(link@, entity@) is None,
        },
{
    proof {
        reveal_strlit("jiosaavn.com/");
        reveal_strlit("/");
    }
    let v = chars_of(link);
    let prefix = String::from_str("jiosaavn.com/").concat(entity).concat("/");
    assert(prefix@ =~= entity_prefix(entity@));
    let pv = chars_of(prefix.as_str());
    let n = v.len();
    proof {
        lemma_last_slash(v@);
    }
    let ls = match find_last_slash(&v) {
        Some(k) if k + 1 < n => k,
        _ => {
            assert forall|i: int| !entity_link_at(link@, entity@, i) by {
                if occurs_at(link@, entity_prefix(entity@), i) {
                    lemma_entity_link_at(link@, entity@, i);
                }
            }
            return None;
        },
    };
    let m = pv.len();
    let mut i: usize = 0;
    while i < n
        invariant
            v@ == link@,
            pv@ == entity_prefix(entity@),
            n == v.len(),
            m == pv.len(),
            ls == last_slash(link@),
            ls + 1 < n,
            forall|k: int| 0 <= k < i ==> !entity_link_at(link@, entity@, k),
        decreases n - i,
    {
        if occurs_at_exec(&v, &pv, i) {
            proof {
                lemma_entity_link_at(link@, entity@, i as int);
            }
            let q = i + m;
            if q < ls && slash_free(&v, q, ls) {
                assert(entity_link_at(link@, entity@, i as int));
                return Some(tail_from(link, ls + 1));
            }
        }
        i = i + 1;
    }
    assert forall|k: int| !entity_link_at(link@, entity@, k) by {
        if 0 <= k < i {
        }
    }
    None
}

/// The token of a playlist address, as the playlist pattern captures it (see `playlist_token_spec`).
pub fn playlist_link_token(link: &str) -> (r: Option<String>)
    ensures
        match r {
            Some(t) => playlist_token_spec(link@) == Some(t@),
            None => playlist_token_spec(link@) is None,
        },
{
    let v = chars_of(link);
    proof {
        lemma_last_slash(v@);
    }
    match find_last_slash(&v) {
        Some(k) if k + 1 < v.len() => Some(tail_from(link, k + 1)),
        _ => None,
    }
}

} // verus!
