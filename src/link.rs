//! Decoding of Bing's click-tracking links, which carry the destination
//! base64-encoded after an `&u=a1` marker.
use vstd::prelude::*;
use base64::Engine;
use crate::text::{chars_of, matches_at, occurs_at, slice, string_of};

verus! {

/// What `STANDARD_NO_PAD.decode` of the `base64` crate returns for `s`:
/// the decoded bytes, or `None` where `s` is not valid unpadded base64.
pub uninterp spec fn base64_decoded(s: Seq<char>) -> Option<Seq<u8>>;

/// What `String::from_utf8` returns for `b`: the text, or `None` where `b` is
/// not valid UTF-8.
pub uninterp spec fn utf8_decoded(b: Seq<u8>) -> Option<Seq<char>>;

/// Relies on `base64::engine::general_purpose::STANDARD_NO_PAD.decode`.
#[verifier::external_body]
fn decode_base64(s: &str) -> (r: Option<Vec<u8>>)
    ensures
        match r {
            Some(b) => base64_decoded(s@) == Some(b@),
            None => base64_decoded(s@) is None,
        },
{
    base64::engine::general_purpose::STANDARD_NO_PAD.decode(s).ok()
}

/// Relies on `String::from_utf8`.
#[verifier::external_body]
fn text_from_utf8(b: Vec<u8>) -> (r: Option<String>)
    ensures
        match r {
            Some(t) => utf8_decoded(b@) == Some(t@),
            None => utf8_decoded(b@) is None,
        },
{
    String::from_utf8(b).ok()
}

/// The prefix of Bing's click-tracking links.
pub open spec fn tracking_prefix() -> Seq<char> {
    "https://www.bing.com/ck/a?"@
}

/// At `i`, `u` holds the marker `&u=a1` followed by at least one character
/// other than `&`.
pub open spec fn marker_at(u: Seq<char>, i: int) -> bool {
    matches_at(u, i, "&u=a1"@) && i + 5 < u.len() && u[i + 5] != '&'
}

/// The first marker position at or after `i`.
pub open spec fn first_marker(u: Seq<char>, i: nat) -> Option<nat>
    decreases u.len() + 1 - i,
{
    if i > u.len() {
        None
    } else if marker_at(u, i as int) {
        Some(i)
    } else {
        first_marker(u, i + 1)
    }
}

/// The end of the run of characters other than `&` that starts at `j`.
pub open spec fn run_end(u: Seq<char>, j: nat) -> nat
    decreases u.len() - j,
{
    if j < u.len() && u[j as int] != '&' {
        run_end(u, j + 1)
    } else {
        j
    }
}

/// The encoded destination of `u`: the characters after the first marker,
/// up to the next `&` or the end.
pub open spec fn payload(u: Seq<char>) -> Option<Seq<char>> {
    match first_marker(u, 0) {
        Some(i) => Some(u.subrange((i + 5) as int, run_end(u, i + 5) as int)),
        None => None,
    }
}

/// The destination of a tracking link `u`, or `u` itself where it holds no
/// payload, the payload is not base64, or the bytes are not UTF-8.
pub open spec fn decoded_link(u: Seq<char>) -> Seq<char> {
    match payload(u) {
        None => u,
        Some(p) => match base64_decoded(p) {
            None => u,
            Some(b) => match utf8_decoded(b) {
                None => u,
                Some(t) => t,
            },
        },
    }
}

/// Decoding a tracking link yields the text that its payload encodes; a link
/// without a payload, with a payload that is not base64, or whose bytes are
/// not UTF-8 comes back unchanged.
pub proof fn lemma_decoded_link(u: Seq<char>)
    ensures
        payload(u) is None ==> decoded_link(u) == u,
        forall|p: Seq<char>| payload(u) == Some(p) && base64_decoded(p) is None ==> decoded_link(u) == u,
        forall|p: Seq<char>, b: Seq<u8>|
            payload(u) == Some(p) && base64_decoded(p) == Some(b) && utf8_decoded(b) is None
                ==> decoded_link(u) == u,
        forall|p: Seq<char>, b: Seq<u8>, x: Seq<char>|
            payload(u) == Some(p) && base64_decoded(p) == Some(b) && utf8_decoded(b) == Some(x)
                ==> decoded_link(u) == x,
{
}

proof fn lemma_first_marker_skips(u: Seq<char>, i: nat, m: nat)
    requires
        i <= m <= u.len(),
        forall|k: int| i <= k < m ==> !marker_at(u, k),
    ensures
        first_marker(u, i) == first_marker(u, m),
    decreases m - i,
{
    if i < m {
        lemma_first_marker_skips(u, i + 1, m);
    }
}

proof fn lemma_run_end_to(u: Seq<char>, j: nat, e: nat)
    requires
        j <= e <= u.len(),
        forall|k: int| j <= k < e ==> u[k] != '&',
        e == u.len() || u[e as int] == '&',
    ensures
        run_end(u, j) == e,
    decreases e - j,
{
    if j < e {
        lemma_run_end_to(u, j + 1, e);
    }
}

/// A link made of a prefix in which no marker starts, the marker `&u=a1`, a
/// payload without `&`, and a rest that is empty or starts with `&` carries
/// exactly that payload; it decodes to the text that the payload encodes.
pub proof fn lemma_embedded_payload(p: Seq<char>, g: Seq<char>, rest: Seq<char>)
    requires
        g.len() > 0,
        forall|k: int| 0 <= k < g.len() ==> g[k] != '&',
        rest.len() == 0 || rest[0] == '&',
        forall|i: int| 0 <= i < p.len() ==> !marker_at(p + "&u=a1"@ + g + rest, i),
    ensures
        payload(p + "&u=a1"@ + g + rest) == Some(g),
        forall|b: Seq<u8>, x: Seq<char>|
            base64_decoded(g) == Some(b) && utf8_decoded(b) == Some(x)
                ==> decoded_link(p + "&u=a1"@ + g + rest) == x,
{
    reveal_strlit("&u=a1");
    let u = p + "&u=a1"@ + g + rest;
    let m = p.len();
    assert(u.subrange(m as int, (m + 5) as int) =~= "&u=a1"@);
    assert(u[(m + 5) as int] == g[0]);
    assert(marker_at(u, m as int));
    lemma_first_marker_skips(u, 0, m);
    let e = m + 5 + g.len();
    assert forall|k: int| m + 5 <= k < e implies u[k] != '&' by {
        assert(u[k] == g[k - m - 5]);
    }
    if rest.len() > 0 {
        assert(u[e as int] == rest[0]);
    }
    lemma_run_end_to(u, m + 5, e);
    assert(u.subrange((m + 5) as int, e as int) =~= g);
}

proof fn lemma_run_end_bounds(u: Seq<char>, j: nat)
    requires
        j <= u.len(),
    ensures
        j <= run_end(u, j) <= u.len(),
    decreases u.len() - j,
{
    if j < u.len() && u[j as int] != '&' {
        lemma_run_end_bounds(u, j + 1);
    }
}

/// Where the first marker at or after `start` lies in `u`.
fn find_marker(u: &Vec<char>, start: usize) -> (r: Option<usize>)
    ensures
        match r {
            Some(i) => first_marker(u@, start as nat) == Some(i as nat) && i + 6 <= u.len(),
            None => first_marker(u@, start as nat) is None,
        },
{
    let marker = chars_of("&u=a1");
    proof {
        reveal_strlit("&u=a1");
        assert(marker@.len() == 5);
    }
    if start > u.len() {
        return None;
    }
    let mut i: usize = start;
    while i < u.len()
        invariant
            start <= i <= u.len(),
            marker@ == "&u=a1"@,
            marker@.len() == 5,
            first_marker(u@, start as nat) == first_marker(u@, i as nat),
        decreases u.len() - i,
    {
        if occurs_at(u, i, &marker) && i + 5 < u.len() && u[i + 5] != '&' {
            return Some(i);
        }
        i = i + 1;
    }
    assert(!marker_at(u@, i as int));
    assert(first_marker(u@, (i + 1) as nat) is None);
    None
}

/// The end of the run of characters other than `&` that starts at `j`.
fn find_run_end(u: &Vec<char>, j: usize) -> (r: usize)
    requires
        j <= u.len(),
    ensures
        r as nat == run_end(u@, j as nat),
{
    let mut k: usize = j;
    while k < u.len() && u[k] != '&'
        invariant
            j <= k <= u.len(),
            run_end(u@, j as nat) == run_end(u@, k as nat),
        decreases u.len() - k,
    {
        k = k + 1;
    }
    k
}

/// Turns a Bing click-tracking link into its destination. Where the link has
/// no payload, or the payload does not decode, the link is returned unchanged.
pub fn decode_url(url: &str) -> (r: String)
    ensures
        r@ == decoded_link(url@),
{
    let u = chars_of(url);
    match find_marker(&u, 0) {
        None => url.to_owned(),
        Some(i) => {
            let e = find_run_end(&u, i + 5);
            proof {
                lemma_run_end_bounds(u@, (i + 5) as nat);
            }
            let p = string_of(&slice(&u, i + 5, e));
            match decode_base64(p.as_str()) {
                None => url.to_owned(),
                Some(b) => match text_from_utf8(b) {
                    None => url.to_owned(),
                    Some(t) => t,
                },
            }
        },
    }
}

} // verus!
