//! Verified text utilities the shell's logic is specified with: ASCII case
//! folding, substring search, trimming, decimal rendering and the
//! percent-encoding used for search URLs.

use vstd::prelude::*;

verus! {

/// The whitespace characters trimmed from palette queries.
pub open spec fn is_space_char(c: char) -> bool {
    c == ' ' || c == '\t' || c == '\n' || c == '\r'
}

/// Executable check for [`is_space_char`].
#[verifier::when_used_as_spec(is_space_char)]
pub fn is_space(c: char) -> (r: bool)
    ensures
        r == is_space_char(c),
{
    c == ' ' || c == '\t' || c == '\n' || c == '\r'
}

/// ASCII lowercase folding of one character; everything outside `A`..`Z`
/// is left unchanged.
pub open spec fn lower_char(c: char) -> char {
    if 'A' <= c && c <= 'Z' {
        ((c as u8) + 32) as char
    } else {
        c
    }
}

/// Executable ASCII lowercase folding of one character.
#[verifier::when_used_as_spec(lower_char)]
pub fn lower_char_exec(c: char) -> (r: char)
    ensures
        r == lower_char(c),
{
    if 'A' <= c && c <= 'Z' {
        ((c as u8) + 32) as char
    } else {
        c
    }
}

/// ASCII lowercase folding of a whole character sequence.
pub open spec fn to_lower(s: Seq<char>) -> Seq<char> {
    s.map_values(|c: char| lower_char(c))
}

/// The needle occurs in the haystack starting at position `i`.
pub open spec fn matches_at(hay: Seq<char>, needle: Seq<char>, i: int) -> bool {
    0 <= i && i + needle.len() <= hay.len() && (forall|j: int|
        0 <= j < needle.len() ==> hay[i + j] == needle[j])
}

/// The needle occurs somewhere in the haystack.
pub open spec fn seq_contains(hay: Seq<char>, needle: Seq<char>) -> bool {
    exists|i: int| matches_at(hay, needle, i)
}

/// `p` is a prefix of `s`.
pub open spec fn is_prefix(p: Seq<char>, s: Seq<char>) -> bool {
    matches_at(s, p, 0)
}

/// Character-for-character equality of two string slices.
pub fn str_eq(a: &str, b: &str) -> (r: bool)
    ensures
        r == (a@ == b@),
{
    let an = a.unicode_len();
    let bn = b.unicode_len();
    if an != bn {
        return false;
    }
    let mut i: usize = 0;
    while i < an
        invariant
            0 <= i <= an,
            an == a@.len(),
            an == b@.len(),
            forall|j: int| 0 <= j < i ==> a@[j] == b@[j],
        decreases an - i,
    {
        if a.get_char(i) != b.get_char(i) {
            return false;
        }
        i += 1;
    }
    proof {
        assert(a@ =~= b@);
    }
    true
}

/// Whether the string contains the given character.
pub fn str_contains_char(s: &str, c: char) -> (r: bool)
    ensures
        r == s@.contains(c),
{
    let n = s.unicode_len();
    let mut i: usize = 0;
    while i < n
        invariant
            0 <= i <= n,
            n == s@.len(),
            forall|j: int| 0 <= j < i ==> s@[j] != c,
        decreases n - i,
    {
        if s.get_char(i) == c {
            return true;
        }
        i += 1;
    }
    false
}

/// Whether `p` is a prefix of `s`.
pub fn str_starts_with(s: &str, p: &str) -> (r: bool)
    ensures
        r == is_prefix(p@, s@),
{
    let sn = s.unicode_len();
    let pn = p.unicode_len();
    if pn > sn {
        return false;
    }
    let mut j: usize = 0;
    while j < pn
        invariant
            0 <= j <= pn,
            pn == p@.len(),
            sn == s@.len(),
            pn <= sn,
            forall|k: int| 0 <= k < j ==> s@[k] == p@[k],
        decreases pn - j,
    {
        if s.get_char(j) != p.get_char(j) {
            return false;
        }
        j += 1;
    }
    true
}

/// Whether the needle occurs in the haystack, after folding both to ASCII
/// lowercase when `fold` is set.
fn contains_from(hay: &str, needle: &str, fold: bool) -> (r: bool)
    ensures
        fold ==> r == seq_contains(to_lower(hay@), to_lower(needle@)),
        !fold ==> r == seq_contains(hay@, needle@),
{
    let ghost h = if fold {
        to_lower(hay@)
    } else {
        hay@
    };
    let ghost nd = if fold {
        to_lower(needle@)
    } else {
        needle@
    };
    let hn = hay.unicode_len();
    let nn = needle.unicode_len();
    if nn > hn {
        proof {
            assert(!seq_contains(h, nd));
        }
        return false;
    }
    let mut i: usize = 0;
    while i <= hn - nn
        invariant
            0 <= i <= hn - nn + 1,
            nn <= hn,
            hn == h.len(),
            nn == nd.len(),
            h.len() == hay@.len(),
            nd.len() == needle@.len(),
            fold ==> h == to_lower(hay@) && nd == to_lower(needle@),
            !fold ==> h == hay@ && nd == needle@,
            forall|m: int| 0 <= m < i ==> !matches_at(h, nd, m),
        decreases hn - nn + 1 - i,
    {
        let mut j: usize = 0;
        let mut hit = true;
        while j < nn
            invariant
                0 <= j <= nn,
                0 <= i <= hn - nn,
                nn <= hn,
                hn == h.len(),
                nn == nd.len(),
                h.len() == hay@.len(),
                nd.len() == needle@.len(),
                fold ==> h == to_lower(hay@) && nd == to_lower(needle@),
                !fold ==> h == hay@ && nd == needle@,
                hit ==> forall|k: int| 0 <= k < j ==> h[i + k] == nd[k],
                !hit ==> !matches_at(h, nd, i as int),
            decreases nn - j,
        {
            let hc = hay.get_char(i + j);
            let nc = needle.get_char(j);
            let same = if fold {
                lower_char_exec(hc) == lower_char_exec(nc)
            } else {
                hc == nc
            };
            if !same {
                proof {
                    assert(h[i + j] != nd[j as int]);
                }
                hit = false;
            }
            j += 1;
        }
        if hit {
            proof {
                assert(matches_at(h, nd, i as int));
            }
            return true;
        }
        i += 1;
    }
    proof {
        assert forall|m: int| !matches_at(h, nd, m) by {
            if m > hn - nn {
                assert(!matches_at(h, nd, m));
            }
        }
    }
    false
}

/// Whether the needle occurs verbatim in the haystack.
pub fn str_contains(hay: &str, needle: &str) -> (r: bool)
    ensures
        r == seq_contains(hay@, needle@),
{
    contains_from(hay, needle, false)
}

/// Whether the needle occurs in the haystack under ASCII case folding.
pub fn str_contains_lower(hay: &str, needle: &str) -> (r: bool)
    ensures
        r == seq_contains(to_lower(hay@), to_lower(needle@)),
{
    contains_from(hay, needle, true)
}

/// The sequence with leading whitespace removed.
pub open spec fn trim_front(s: Seq<char>) -> Seq<char>
    decreases s.len(),
{
    if s.len() == 0 {
        s
    } else if is_space_char(s[0]) {
        trim_front(s.drop_first())
    } else {
        s
    }
}

/// The sequence with trailing whitespace removed.
pub open spec fn trim_back(s: Seq<char>) -> Seq<char>
    decreases s.len(),
{
    if s.len() == 0 {
        s
    } else if is_space_char(s.last()) {
        trim_back(s.drop_last())
    } else {
        s
    }
}

/// The sequence with whitespace removed from both ends.
pub open spec fn trim_spec(s: Seq<char>) -> Seq<char> {
    trim_back(trim_front(s))
}

proof fn lemma_trim_front_skip(s: Seq<char>, k: int)
    requires
        0 <= k <= s.len(),
        forall|m: int| 0 <= m < k ==> is_space_char(s[m]),
        k == s.len() || !is_space_char(s[k]),
    ensures
        trim_front(s) == s.skip(k),
    decreases k,
{
    if k == 0 {
        assert(s.skip(0) =~= s);
    } else {
        assert(is_space_char(s[0]));
        let t = s.drop_first();
        assert(t =~= s.skip(1));
        assert forall|m: int| 0 <= m < k - 1 implies is_space_char(t[m]) by {
            assert(t[m] == s[m + 1]);
        }
        if k - 1 < t.len() {
            assert(t[k - 1] == s[k]);
        }
        lemma_trim_front_skip(t, k - 1);
        assert(t.skip(k - 1) =~= s.skip(k));
    }
}

proof fn lemma_trim_back_take(s: Seq<char>, k: int)
    requires
        0 <= k <= s.len(),
        forall|m: int| k <= m < s.len() ==> is_space_char(s[m]),
        k == 0 || !is_space_char(s[k - 1]),
    ensures
        trim_back(s) == s.take(k),
    decreases s.len() - k,
{
    if k == s.len() {
        assert(s.take(k) =~= s);
    } else {
        assert(is_space_char(s.last()));
        let t = s.drop_last();
        lemma_trim_back_take(t, k);
        assert(t.take(k) =~= s.take(k));
    }
}

/// The slice with leading and trailing whitespace removed.
pub fn trim<'a>(s: &'a str) -> (t: &'a str)
    ensures
        t@ == trim_spec(s@),
{
    let n = s.unicode_len();
    let mut lo: usize = 0;
    while lo < n && is_space(s.get_char(lo))
        invariant
            0 <= lo <= n,
            n == s@.len(),
            forall|m: int| 0 <= m < lo ==> is_space_char(s@[m]),
        decreases n - lo,
    {
        lo += 1;
    }
    proof {
        lemma_trim_front_skip(s@, lo as int);
    }
    if lo == n {
        let t = s.substring_char(0, 0);
        proof {
            assert(s@.skip(lo as int) =~= Seq::<char>::empty());
            assert(t@ =~= Seq::<char>::empty());
        }
        return t;
    }
    let mut hi: usize = n;
    while hi > lo + 1 && is_space(s.get_char(hi - 1))
        invariant
            lo < hi <= n,
            n == s@.len(),
            forall|m: int| hi <= m < n ==> is_space_char(s@[m]),
        decreases hi,
    {
        hi -= 1;
    }
    let t = s.substring_char(lo, hi);
    proof {
        let f = s@.skip(lo as int);
        assert(!is_space_char(f[0]));
        assert forall|m: int| hi - lo <= m < f.len() implies is_space_char(f[m]) by {
            assert(f[m] == s@[m + lo]);
        }
        assert(!is_space_char(f[hi - lo - 1]));
        lemma_trim_back_take(f, hi - lo);
        assert(f.take(hi - lo) =~= s@.subrange(lo as int, hi as int));
    }
    t
}

/// The empty string literal's view is the empty sequence, and trimming the
/// empty sequence yields it back.
pub proof fn lemma_empty_strlit()
    ensures
        ""@ == Seq::<char>::empty(),
        trim_spec(Seq::<char>::empty()) == Seq::<char>::empty(),
{
    reveal_strlit("");
    assert(""@ =~= Seq::<char>::empty());
}

/// Relies on `String::push`: appends the character to the end of the string.
#[verifier::external_body]
pub fn push_char(s: &mut String, c: char)
    ensures
        final(s)@ == old(s)@.push(c),
{
    s.push(c);
}

/// The decimal digit character for `d`.
pub open spec fn digit_char(d: int) -> char {
    if d == 0 {
        '0'
    } else if d == 1 {
        '1'
    } else if d == 2 {
        '2'
    } else if d == 3 {
        '3'
    } else if d == 4 {
        '4'
    } else if d == 5 {
        '5'
    } else if d == 6 {
        '6'
    } else if d == 7 {
        '7'
    } else if d == 8 {
        '8'
    } else {
        '9'
    }
}

fn digit_char_exec(d: usize) -> (c: char)
    requires
        d < 10,
    ensures
        c == digit_char(d as int),
{
    if d == 0 {
        '0'
    } else if d == 1 {
        '1'
    } else if d == 2 {
        '2'
    } else if d == 3 {
        '3'
    } else if d == 4 {
        '4'
    } else if d == 5 {
        '5'
    } else if d == 6 {
        '6'
    } else if d == 7 {
        '7'
    } else if d == 8 {
        '8'
    } else {
        '9'
    }
}

/// The usual decimal rendering of a number, most significant digit first.
pub open spec fn dec_spec(n: nat) -> Seq<char>
    decreases n,
{
    if n < 10 {
        seq![digit_char(n as int)]
    } else {
        dec_spec(n / 10).push(digit_char((n % 10) as int))
    }
}

/// Renders a number in decimal.
pub fn dec_string(n: usize) -> (s: String)
    ensures
        s@ == dec_spec(n as nat),
    decreases n,
{
    if n < 10 {
        let mut s = String::new();
        push_char(&mut s, digit_char_exec(n));
        proof {
            assert(s@ =~= seq![digit_char(n as int)]);
        }
        s
    } else {
        let mut s = dec_string(n / 10);
        push_char(&mut s, digit_char_exec(n % 10));
        s
    }
}

/// A character the percent encoder passes through unchanged: the unreserved
/// URI characters, and everything outside ASCII (the encoder works on
/// characters, leaving non-ASCII text as it is).
pub open spec fn keep_verbatim(c: char) -> bool {
    ('a' <= c && c <= 'z') || ('A' <= c && c <= 'Z') || ('0' <= c && c <= '9') || c == '-' || c
        == '.' || c == '_' || c == '~' || (c as int) > 127
}

/// The uppercase hexadecimal digit character for `d`.
pub open spec fn hex_digit(d: int) -> char {
    if d == 0 {
        '0'
    } else if d == 1 {
        '1'
    } else if d == 2 {
        '2'
    } else if d == 3 {
        '3'
    } else if d == 4 {
        '4'
    } else if d == 5 {
        '5'
    } else if d == 6 {
        '6'
    } else if d == 7 {
        '7'
    } else if d == 8 {
        '8'
    } else if d == 9 {
        '9'
    } else if d == 10 {
        'A'
    } else if d == 11 {
        'B'
    } else if d == 12 {
        'C'
    } else if d == 13 {
        'D'
    } else if d == 14 {
        'E'
    } else {
        'F'
    }
}

fn hex_digit_exec(d: u32) -> (c: char)
    requires
        d < 16,
    ensures
        c == hex_digit(d as int),
{
    if d == 0 {
        '0'
    } else if d == 1 {
        '1'
    } else if d == 2 {
        '2'
    } else if d == 3 {
        '3'
    } else if d == 4 {
        '4'
    } else if d == 5 {
        '5'
    } else if d == 6 {
        '6'
    } else if d == 7 {
        '7'
    } else if d == 8 {
        '8'
    } else if d == 9 {
        '9'
    } else if d == 10 {
        'A'
    } else if d == 11 {
        'B'
    } else if d == 12 {
        'C'
    } else if d == 13 {
        'D'
    } else if d == 14 {
        'E'
    } else {
        'F'
    }
}

/// The percent encoding of one character: kept verbatim, or `%XX` over its
/// ASCII code.
pub open spec fn enc_char(c: char) -> Seq<char> {
    if keep_verbatim(c) {
        seq![c]
    } else {
        seq!['%', hex_digit(c as int / 16), hex_digit(c as int % 16)]
    }
}

/// The percent encoding of a character sequence.
pub open spec fn percent_encode_spec(s: Seq<char>) -> Seq<char>
    decreases s.len(),
{
    if s.len() == 0 {
        Seq::empty()
    } else {
        enc_char(s[0]) + percent_encode_spec(s.drop_first())
    }
}

proof fn lemma_pct_push(p: Seq<char>, c: char)
    ensures
        percent_encode_spec(p.push(c)) == percent_encode_spec(p) + enc_char(c),
    decreases p.len(),
{
    if p.len() == 0 {
        assert(p.push(c)[0] == c);
        assert(p.push(c).drop_first() =~= Seq::<char>::empty());
        assert(percent_encode_spec(p.push(c)) == enc_char(c) + percent_encode_spec(
            Seq::<char>::empty(),
        ));
        assert(enc_char(c) + Seq::<char>::empty() =~= enc_char(c));
        assert(percent_encode_spec(p) + enc_char(c) =~= enc_char(c));
    } else {
        assert(p.push(c)[0] == p[0]);
        assert(p.push(c).drop_first() =~= p.drop_first().push(c));
        lemma_pct_push(p.drop_first(), c);
        assert(percent_encode_spec(p.push(c)) == enc_char(p[0]) + (percent_encode_spec(
            p.drop_first(),
        ) + enc_char(c)));
        assert(enc_char(p[0]) + (percent_encode_spec(p.drop_first()) + enc_char(c)) =~= (enc_char(
            p[0],
        ) + percent_encode_spec(p.drop_first())) + enc_char(c));
    }
}

/// Percent-encodes a string: unreserved and non-ASCII characters are kept,
/// every other ASCII character becomes `%XX`.
pub fn percent_encode(s: &str) -> (r: String)
    ensures
        r@ == percent_encode_spec(s@),
{
    let n = s.unicode_len();
    let mut out = String::new();
    let mut i: usize = 0;
    while i < n
        invariant
            0 <= i <= n,
            n == s@.len(),
            out@ == percent_encode_spec(s@.take(i as int)),
        decreases n - i,
    {
        let c = s.get_char(i);
        let keep = ('a' <= c && c <= 'z') || ('A' <= c && c <= 'Z') || ('0' <= c && c <= '9') || c
            == '-' || c == '.' || c == '_' || c == '~' || (c as u32) > 127;
        if keep {
            push_char(&mut out, c);
        } else {
            let v = c as u32;
            push_char(&mut out, '%');
            push_char(&mut out, hex_digit_exec(v / 16));
            push_char(&mut out, hex_digit_exec(v % 16));
        }
        proof {
            lemma_pct_push(s@.take(i as int), c);
            assert(s@.take(i + 1) =~= s@.take(i as int).push(s@[i as int]));
            assert(out@ =~= percent_encode_spec(s@.take(i as int)) + enc_char(c));
        }
        i += 1;
    }
    proof {
        assert(s@.take(n as int) =~= s@);
    }
    out
}

} // verus!
