//! Request headers, as ordered name and value pairs.
use vstd::prelude::*;
use crate::text::push_str;

verus! {

/// The view of a header list.
pub open spec fn header_views(h: Seq<(String, String)>) -> Seq<(Seq<char>, Seq<char>)> {
    h.map_values(|p: (String, String)| (p.0@, p.1@))
}

/// The headers that every engine sends: the caller's identity, and the
/// engine's origin as referer and origin.
pub open spec fn identity_headers(base: Seq<char>, user_agent: Seq<char>, accept_language: Seq<char>) -> Seq<(Seq<char>, Seq<char>)> {
    seq![
        ("User-Agent"@, user_agent),
        ("Accept-Language"@, accept_language),
        ("Referer"@, base + "/"@),
        ("Origin"@, base),
    ]
}

/// The form content type that several engines send.
pub open spec fn form_content_type() -> (Seq<char>, Seq<char>) {
    ("Content-Type"@, "application/x-www-form-urlencoded"@)
}

/// The Global Privacy Control signal.
pub open spec fn privacy_signal() -> (Seq<char>, Seq<char>) {
    ("Sec-GPC"@, "1"@)
}

/// Appends the header `name: value`.
pub fn push_header(h: &mut Vec<(String, String)>, name: &str, value: String)
    ensures
        header_views(final(h)@) == header_views(old(h)@).push((name@, value@)),
{
    h.push((name.to_owned(), value));
    proof {
        assert(header_views(final(h)@) =~= header_views(old(h)@).push((name@, value@)));
    }
}

/// The identity headers for the engine at `base`.
pub fn identity(base: &str, user_agent: &str, accept_language: &str) -> (r: Vec<(String, String)>)
    ensures
        header_views(r@) == identity_headers(base@, user_agent@, accept_language@),
{
    let mut h: Vec<(String, String)> = Vec::new();
    proof {
        assert(header_views(h@) =~= Seq::<(Seq<char>, Seq<char>)>::empty());
    }
    push_header(&mut h, "User-Agent", user_agent.to_owned());
    push_header(&mut h, "Accept-Language", accept_language.to_owned());
    let mut referer: Vec<char> = Vec::new();
    push_str(&mut referer, base);
    push_str(&mut referer, "/");
    push_header(&mut h, "Referer", crate::text::string_of(&referer));
    push_header(&mut h, "Origin", base.to_owned());
    proof {
        assert(referer@ =~= base@ + "/"@);
        assert(header_views(h@) =~= identity_headers(base@, user_agent@, accept_language@));
    }
    h
}

} // verus!
