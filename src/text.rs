//! Text helpers over character sequences: prefix and substring search,
//! decimal rendering, trimming and the description cleanup rule.
use vstd::prelude::*;

verus! {

/// `p` occurs in `s` at position `i`.
pub open spec fn matches_at(s: Seq<char>, i: int, p: Seq<char>) -> bool {
    0 <= i && i + p.len() <= s.len() && s.subrange(i, i + p.len()) == p
}

/// `s` begins with `p`.
pub open spec fn has_prefix(s: Seq<char>, p: Seq<char>) -> bool {
    matches_at(s, 0, p)
}

/// `p` occurs somewhere in `s`.
pub open spec fn contains(s: Seq<char>, p: Seq<char>) -> bool {
    exists|i: int| matches_at(s, i, p)
}

/// The first position at or after `i` where `p` occurs in `s`.
pub open spec fn find_from(s: Seq<char>, p: Seq<char>, i: nat) -> Option<nat>
    decreases s.len() + 1 - i,
{
    if i > s.len() {
        None
    } else if matches_at(s, i as int, p) {
        Some(i)
    } else {
        find_from(s, p, i + 1)
    }
}

/// The digit character for `d < 10`.
pub open spec fn digit_char(d: nat) -> char {
    if d == 0 { '0' }
    else if d == 1 { '1' }
    else if d == 2 { '2' }
    else if d == 3 { '3' }
    else if d == 4 { '4' }
    else if d == 5 { '5' }
    else if d == 6 { '6' }
    else if d == 7 { '7' }
    else if d == 8 { '8' }
    else { '9' }
}

/// The decimal rendering of `n`, without leading zeros.
pub open spec fn decimal(n: nat) -> Seq<char>
    decreases n,
{
    if n < 10 {
        seq![digit_char(n)]
    } else {
        decimal(n / 10).push(digit_char(n % 10))
    }
}

/// White space in the sense of `char::is_whitespace`: the characters with
/// the Unicode `White_Space` property.
pub open spec fn is_white(c: char) -> bool {
    let u = c as u32;
    (0x9 <= u <= 0xd) || u == 0x20 || u == 0x85 || u == 0xa0 || u == 0x1680 || (0x2000 <= u <= 0x200a)
        || u == 0x2028 || u == 0x2029 || u == 0x202f || u == 0x205f || u == 0x3000
}

/// `s` without its leading white space.
pub open spec fn trim_start(s: Seq<char>) -> Seq<char>
    decreases s.len(),
{
    if s.len() > 0 && is_white(s[0]) {
        trim_start(s.drop_first())
    } else {
        s
    }
}

/// `s` without its trailing white space.
pub open spec fn trim_end(s: Seq<char>) -> Seq<char>
    decreases s.len(),
{
    if s.len() > 0 && is_white(s.last()) {
        trim_end(s.drop_last())
    } else {
        s
    }
}

/// `s` without its leading and trailing white space, as `str::trim` gives it.
pub open spec fn trimmed(s: Seq<char>) -> Seq<char> {
    trim_end(trim_start(s))
}

/// Whether `c` is white space.
fn white(c: char) -> (r: bool)
    ensures
        r == is_white(c),
{
    let u = c as u32;
    (0x9 <= u && u <= 0xd) || u == 0x20 || u == 0x85 || u == 0xa0 || u == 0x1680 || (0x2000 <= u && u <= 0x200a)
        || u == 0x2028 || u == 0x2029 || u == 0x202f || u == 0x205f || u == 0x3000
}

/// Relies on `str::chars`: the characters of the string, in order.
#[verifier::external_body]
pub(crate) fn chars_of(s: &str) -> (r: Vec<char>)
    ensures
        r@ == s@,
{
    s.chars().collect()
}

/// Relies on `String::from_iter`: a string made of the given characters.
#[verifier::external_body]
pub(crate) fn string_of(v: &Vec<char>) -> (r: String)
    ensures
        r@ == v@,
{
    v.iter().collect()
}

/// `s` without its leading and trailing white space.
pub fn trim(s: &str) -> (r: String)
    ensures
        r@ == trimmed(s@),
{
    let c = chars_of(s);
    let n: usize = c.len();
    let mut i: usize = 0;
    proof {
        assert(c@.subrange(0, n as int) =~= c@);
    }
    while i < n && white(c[i])
        invariant
            i <= n == c@.len(),
            trim_start(c@) == trim_start(c@.subrange(i as int, n as int)),
        decreases n - i,
    {
        proof {
            assert(c@.subrange(i as int, n as int).drop_first() =~= c@.subrange(i + 1, n as int));
        }
        i = i + 1;
    }
    let mut j: usize = n;
    while j > i && white(c[j - 1])
        invariant
            i <= j <= n == c@.len(),
            trim_end(c@.subrange(i as int, n as int)) == trim_end(c@.subrange(i as int, j as int)),
        decreases j - i,
    {
        proof {
            assert(c@.subrange(i as int, j as int).drop_last() =~= c@.subrange(i as int, j - 1));
        }
        j = j - 1;
    }
    string_of(&slice(&c, i, j))
}

/// Appends the characters of `s` to `out`.
pub fn push_str(out: &mut Vec<char>, s: &str)
    ensures
        final(out)@ == old(out)@ + s@,
{
    let c = chars_of(s);
    let mut i: usize = 0;
    while i < c.len()
        invariant
            i <= c.len(),
            c@ == s@,
            out@ == old(out)@ + c@.subrange(0, i as int),
        decreases c.len() - i,
    {
        out.push(c[i]);
        i = i + 1;
        proof {
            assert(out@ =~= old(out)@ + c@.subrange(0, i as int));
        }
    }
    proof {
        assert(c@.subrange(0, i as int) =~= c@);
    }
}

/// Whether `s` begins with `p`.
pub fn starts_with(s: &str, p: &str) -> (r: bool)
    ensures
        r == has_prefix(s@, p@),
{
    occurs_at(&chars_of(s), 0, &chars_of(p))
}

/// Whether `p` occurs anywhere in `s`.
pub fn str_contains(s: &str, p: &str) -> (r: bool)
    ensures
        r == contains(s@, p@),
{
    contains_seq(&chars_of(s), &chars_of(p))
}

/// Whether `p` occurs in `s` at position `i`.
pub fn occurs_at(s: &Vec<char>, i: usize, p: &Vec<char>) -> (r: bool)
    ensures
        r == matches_at(s@, i as int, p@),
{
    if i > s.len() || p.len() > s.len() - i {
        return false;
    }
    let mut k: usize = 0;
    while k < p.len()
        invariant
            i + p.len() <= s.len(),
            k <= p.len(),
            forall|j: int| 0 <= j < k ==> s@[i + j] == p@[j],
        decreases p.len() - k,
    {
        if s[i + k] != p[k] {
            assert(s@.subrange(i as int, i + p.len())[k as int] != p@[k as int]);
            return false;
        }
        k = k + 1;
    }
    assert(s@.subrange(i as int, i + p.len()) =~= p@);
    true
}

/// The first position at or after `start` where `p` occurs in `s`.
pub fn find(s: &Vec<char>, p: &Vec<char>, start: usize) -> (r: Option<usize>)
    ensures
        match r {
            Some(j) => find_from(s@, p@, start as nat) == Some(j as nat) && start <= j
                && matches_at(s@, j as int, p@),
            None => find_from(s@, p@, start as nat) is None,
        },
{
    if start > s.len() {
        return None;
    }
    let mut i: usize = start;
    while i < s.len()
        invariant
            start <= i <= s.len(),
            find_from(s@, p@, start as nat) == find_from(s@, p@, i as nat),
        decreases s.len() - i,
    {
        if occurs_at(s, i, p) {
            return Some(i);
        }
        i = i + 1;
    }
    if occurs_at(s, i, p) {
        Some(i)
    } else {
        assert(find_from(s@, p@, (i + 1) as nat) is None);
        None
    }
}

/// `find_from` finds an occurrence exactly when one exists at or after `i`.
pub proof fn lemma_find_from(s: Seq<char>, p: Seq<char>, i: nat)
    ensures
        find_from(s, p, i) is Some <==> exists|j: int| j >= i && matches_at(s, j, p),
    decreases s.len() + 1 - i,
{
    if i <= s.len() && !matches_at(s, i as int, p) {
        lemma_find_from(s, p, i + 1);
        if exists|j: int| j >= i && matches_at(s, j, p) {
            let j = choose|j: int| j >= i && matches_at(s, j, p);
            assert(j >= i + 1);
        }
    }
}

/// Whether `p` occurs anywhere in `s`.
pub fn contains_seq(s: &Vec<char>, p: &Vec<char>) -> (r: bool)
    ensures
        r == contains(s@, p@),
{
    proof {
        lemma_find_from(s@, p@, 0);
    }
    find(s, p, 0).is_some()
}

/// Appends the decimal rendering of `n` to `out`.
pub fn push_decimal(out: &mut Vec<char>, n: u64)
    ensures
        final(out)@ == old(out)@ + decimal(n as nat),
    decreases n,
{
    if n >= 10 {
        push_decimal(out, n / 10);
    }
    let d: u64 = n % 10;
    let c: char = if d == 0 { '0' }
        else if d == 1 { '1' }
        else if d == 2 { '2' }
        else if d == 3 { '3' }
        else if d == 4 { '4' }
        else if d == 5 { '5' }
        else if d == 6 { '6' }
        else if d == 7 { '7' }
        else if d == 8 { '8' }
        else { '9' };
    out.push(c);
    proof {
        assert(old(out)@ + decimal(n as nat) =~= final(out)@);
    }
}

/// No line break in `s` between positions `a` and `b`.
pub open spec fn on_one_line(s: Seq<char>, a: int, b: int) -> bool {
    forall|k: int| a <= k < b ==> s[k] != '\n'
}

/// Where a leading `<span ...>...</span>` fragment of `s` ends, with the
/// `&nbsp;·` separator that may follow it; `None` when `s` does not begin with
/// such a fragment. The fragment runs to the first `</span>` after the first
/// `>` and lies on one line: a line break before its end leaves `s` as it is.
pub open spec fn leading_span_end(s: Seq<char>) -> Option<nat> {
    if !has_prefix(s, "<span"@) {
        None
    } else {
        match find_from(s, ">"@, 5) {
            None => None,
            Some(g) => match find_from(s, "</span>"@, g + 1) {
                None => None,
                Some(c) => if !on_one_line(s, 5, c as int) {
                    None
                } else if matches_at(s, (c + 7) as int, "&nbsp;\u{b7}"@) {
                    Some(c + 14)
                } else {
                    Some(c + 7)
                },
            },
        }
    }
}

/// `s` with its leading span fragment removed, if it has one.
pub open spec fn strip_leading_span(s: Seq<char>) -> Seq<char> {
    match leading_span_end(s) {
        None => s,
        Some(e) => s.subrange(e as int, s.len() as int),
    }
}

/// The cleaned form of a description's raw markup: the leading span fragment
/// removed, then white space trimmed.
pub open spec fn clean_description(raw: Seq<char>) -> Seq<char> {
    trimmed(strip_leading_span(raw))
}

/// The characters of `s` from position `start` up to `end`.
pub fn slice(s: &Vec<char>, start: usize, end: usize) -> (r: Vec<char>)
    requires
        start <= end <= s.len(),
    ensures
        r@ == s@.subrange(start as int, end as int),
{
    let mut r: Vec<char> = Vec::new();
    let mut i: usize = start;
    while i < end
        invariant
            start <= i <= end <= s.len(),
            r@ == s@.subrange(start as int, i as int),
        decreases s.len() - i,
    {
        r.push(s[i]);
        i = i + 1;
        proof {
            assert(r@ =~= s@.subrange(start as int, i as int));
        }
    }
    r
}

/// Whether no line break lies in `s` between positions `a` and `b`.
fn single_line(s: &Vec<char>, a: usize, b: usize) -> (r: bool)
    requires
        b <= s.len(),
    ensures
        r == on_one_line(s@, a as int, b as int),
{
    let mut k: usize = a;
    while k < b
        invariant
            b <= s.len(),
            a <= k,
            forall|j: int| a <= j < k ==> s@[j] != '\n',
        decreases b - k,
    {
        if s[k] == '\n' {
            return false;
        }
        k = k + 1;
    }
    true
}

/// Removes a leading `<span ...>...</span>` fragment, and the `&nbsp;·`
/// separator after it, from `s`.
pub fn remove_leading_span(s: &Vec<char>) -> (r: Vec<char>)
    ensures
        r@ == strip_leading_span(s@),
{
    let open = chars_of("<span");
    let gt = chars_of(">");
    let close = chars_of("</span>");
    let sep = chars_of("&nbsp;\u{b7}");
    proof {
        reveal_strlit(">");
        reveal_strlit("</span>");
        reveal_strlit("&nbsp;\u{b7}");
        assert(gt@.len() == 1);
        assert(close@.len() == 7);
    }
    let n: usize = s.len();
    if !occurs_at(s, 0, &open) {
        return s.clone();
    }
    match find(s, &gt, 5) {
        None => s.clone(),
        Some(g) => match find(s, &close, g + 1) {
            None => s.clone(),
            Some(c) => {
                if !single_line(s, 5, c) {
                    return s.clone();
                }
                let e: usize = if occurs_at(s, c + 7, &sep) { c + 14 } else { c + 7 };
                slice(s, e, n)
            },
        },
    }
}

/// Cleans a description's raw markup: the leading span fragment is removed,
/// then white space is trimmed.
pub fn clean(raw: &str) -> (r: String)
    ensures
        r@ == clean_description(raw@),
{
    let chars = chars_of(raw);
    let stripped = string_of(&remove_leading_span(&chars));
    trim(stripped.as_str())
}

/// The cleanup rule is idempotent: once applied, applying it again changes
/// nothing, unless the first pass uncovered another leading span fragment.
pub proof fn lemma_strip_idempotent(s: Seq<char>)
    requires
        leading_span_end(strip_leading_span(s)) is None,
    ensures
        strip_leading_span(strip_leading_span(s)) == strip_leading_span(s),
{
}

proof fn lemma_trim_start_shape(s: Seq<char>)
    ensures
        trim_start(s).len() == 0 || !is_white(trim_start(s)[0]),
    decreases s.len(),
{
    if s.len() > 0 && is_white(s[0]) {
        lemma_trim_start_shape(s.drop_first());
    }
}

proof fn lemma_trim_end_shape(s: Seq<char>)
    ensures
        trim_end(s).len() <= s.len(),
        trim_end(s) == s.subrange(0, trim_end(s).len() as int),
        trim_end(s).len() == 0 || !is_white(trim_end(s).last()),
    decreases s.len(),
{
    if s.len() > 0 && is_white(s.last()) {
        lemma_trim_end_shape(s.drop_last());
        assert(s.drop_last().subrange(0, trim_end(s).len() as int) =~= s.subrange(0, trim_end(s).len() as int));
    } else {
        assert(s.subrange(0, s.len() as int) =~= s);
    }
}

/// Trimming twice is trimming once.
pub proof fn lemma_trim_idempotent(s: Seq<char>)
    ensures
        trimmed(trimmed(s)) == trimmed(s),
{
    let t = trim_start(s);
    let u = trim_end(t);
    lemma_trim_start_shape(s);
    lemma_trim_end_shape(t);
    if u.len() > 0 {
        assert(u[0] == t[0]);
    }
    assert(trim_start(u) == u);
    assert(trim_end(u) == u);
}

/// Cleaning a description twice is cleaning it once, unless the first pass
/// leaves another leading span fragment.
pub proof fn lemma_clean_idempotent(raw: Seq<char>)
    requires
        leading_span_end(clean_description(raw)) is None,
    ensures
        clean_description(clean_description(raw)) == clean_description(raw),
{
    lemma_trim_idempotent(strip_leading_span(raw));
}

} // verus!
