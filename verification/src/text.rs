//! Small text utilities: lossy byte decoding, lowercasing, building a
//! `String` from characters, and verified substring search.

use vstd::prelude::*;

verus! {

/// What `String::from_utf8_lossy` returns for these bytes.
pub uninterp spec fn lossy_of(bytes: Seq<u8>) -> Seq<char>;

/// Relies on `String::from_utf8_lossy`: the decoding is a function of
/// the bytes alone; an empty input decodes to an empty string, and
/// valid UTF-8 — in particular, bytes below 128 — decodes to itself.
#[verifier::external_body]
pub fn lossy_string(bytes: &[u8]) -> (r: String)
    ensures
        r@ == lossy_of(bytes@),
        bytes@.len() == 0 ==> r@.len() == 0,
        (forall|i: int| 0 <= i < bytes@.len() ==> bytes@[i] < 128) ==> r@ == Seq::new(
            bytes@.len(),
            |i: int| bytes@[i] as char,
        ),
{
    String::from_utf8_lossy(bytes).into_owned()
}

/// What `char::is_whitespace` returns for a character.
pub uninterp spec fn ws_of(c: char) -> bool;

/// Relies on `char::is_whitespace`: the Unicode `White_Space`
/// property, a property of the character alone.  Within ASCII the
/// documentation pins it exactly: space, the four named control
/// characters and the vertical/form feeds are whitespace, and the
/// printable characters are not.
#[verifier::external_body]
pub fn char_is_whitespace(c: char) -> (r: bool)
    ensures
        r == ws_of(c),
        (c == ' ' || c == '\t' || c == '\n' || c == '\r' || c == '\u{000B}' || c == '\u{000C}')
            ==> r,
        (33 <= c as int && c as int <= 126) ==> !r,
{
    c.is_whitespace()
}

/// Characters with leading whitespace removed.
pub open spec fn trim_front(s: Seq<char>) -> Seq<char>
    decreases s.len(),
{
    if s.len() > 0 && ws_of(s[0]) {
        trim_front(s.skip(1))
    } else {
        s
    }
}

/// Characters with trailing whitespace removed.
pub open spec fn trim_back(s: Seq<char>) -> Seq<char>
    decreases s.len(),
{
    if s.len() > 0 && ws_of(s[s.len() - 1]) {
        trim_back(s.take(s.len() - 1))
    } else {
        s
    }
}

/// Characters with whitespace removed from both ends, as `str::trim`
/// removes it.
pub open spec fn trimmed(s: Seq<char>) -> Seq<char> {
    trim_back(trim_front(s))
}

/// Leading whitespace is trimmed by skipping to the first non-blank.
pub proof fn lemma_trim_front_at(s: Seq<char>, a: int)
    requires
        0 <= a <= s.len(),
        forall|i: int| 0 <= i < a ==> ws_of(s[i]),
        a < s.len() ==> !ws_of(s[a]),
    ensures
        trim_front(s) == s.skip(a),
    decreases a,
{
    if a == 0 {
        assert(s.skip(0) =~= s);
    } else {
        assert(ws_of(s[0]));
        lemma_trim_front_at(s.skip(1), a - 1);
        assert(s.skip(1).skip(a - 1) =~= s.skip(a));
    }
}

/// Trailing whitespace is trimmed by cutting after the last non-blank.
pub proof fn lemma_trim_back_at(s: Seq<char>, b: int)
    requires
        0 <= b <= s.len(),
        forall|i: int| b <= i < s.len() ==> ws_of(s[i]),
        b > 0 ==> !ws_of(s[b - 1]),
    ensures
        trim_back(s) == s.take(b),
    decreases s.len(),
{
    if b == s.len() {
        assert(s.take(b) =~= s);
    } else {
        assert(ws_of(s[s.len() - 1]));
        lemma_trim_back_at(s.take(s.len() - 1), b);
        assert(s.take(s.len() - 1).take(b) =~= s.take(b));
    }
}

/// The text with whitespace removed from both ends.
pub fn trimmed_substring<'a>(s: &'a str) -> (r: &'a str)
    ensures
        r@ == trimmed(s@),
{
    let n = s.unicode_len();
    let mut lo: usize = 0;
    while lo < n && char_is_whitespace(s.get_char(lo))
        invariant
            n == s@.len(),
            lo <= n,
            forall|i: int| 0 <= i < lo ==> ws_of(s@[i]),
        decreases n - lo,
    {
        lo = lo + 1;
    }
    let mut hi: usize = n;
    while hi > lo && char_is_whitespace(s.get_char(hi - 1))
        invariant
            n == s@.len(),
            lo <= hi <= n,
            forall|i: int| hi <= i < n ==> ws_of(s@[i]),
        decreases hi,
    {
        hi = hi - 1;
    }
    proof {
        lemma_trim_front_at(s@, lo as int);
        let f = s@.skip(lo as int);
        lemma_trim_back_at(f, hi - lo as int);
        assert(forall|i: int| hi - lo <= i < f.len() ==> ws_of(f[i]));
        assert(f.take(hi - lo as int) =~= s@.subrange(lo as int, hi as int));
        assert(trimmed(s@) == s@.subrange(lo as int, hi as int));
    }
    s.substring_char(lo, hi)
}

/// What `str::to_lowercase` returns for these characters.
pub uninterp spec fn lower_of(s: Seq<char>) -> Seq<char>;

/// Relies on `str::to_lowercase`: the result depends on the characters
/// alone, and an empty input stays empty.
#[verifier::external_body]
pub fn lowercase(s: &str) -> (r: String)
    ensures
        r@ == lower_of(s@),
        s@.len() == 0 ==> r@.len() == 0,
{
    s.to_lowercase()
}

/// Relies on `String`'s `FromIterator<char>`: collecting characters
/// yields the string of exactly those characters.
#[verifier::external_body]
pub fn string_from_chars(chars: Vec<char>) -> (r: String)
    ensures
        r@ == chars@,
{
    String::from_iter(chars)
}

/// String equality over views.
pub fn str_eq(a: &str, b: &str) -> (r: bool)
    ensures
        r == (a@ == b@),
{
    let s1 = String::from_str(a);
    let s2 = String::from_str(b);
    s1 == s2
}

/// The view of a text with every double quote turned into a single
/// quote.
pub open spec fn squashed_quotes(s: Seq<char>) -> Seq<char> {
    Seq::new(s.len(), |i: int| if s[i] == '"' { '\'' } else { s[i] })
}

/// Replaces double quotes with single quotes, so that a diagnostic can
/// be quoted inside JSON text without escaping.
pub fn normalize_quotes(s: &str) -> (r: String)
    ensures
        r@ == squashed_quotes(s@),
{
    let len = s.unicode_len();
    let mut out: Vec<char> = Vec::new();
    let mut i: usize = 0;
    while i < len
        invariant
            len == s@.len(),
            i <= len,
            out@ == squashed_quotes(s@).take(i as int),
        decreases len - i,
    {
        let c = s.get_char(i);
        if c == '"' {
            out.push('\'');
        } else {
            out.push(c);
        }
        proof {
            assert(out@ =~= squashed_quotes(s@).take(i + 1 as int));
        }
        i = i + 1;
    }
    proof {
        assert(squashed_quotes(s@).take(len as int) =~= squashed_quotes(s@));
    }
    string_from_chars(out)
}

/// The decimal rendering of a non-negative number.
pub open spec fn dec_str(n: int) -> Seq<char>
    decreases n,
{
    if n < 10 {
        seq![((48 + n) as u8) as char]
    } else {
        dec_str(n / 10).push(((48 + n % 10) as u8) as char)
    }
}

/// The decimal digits of a number, most significant first.
fn dec_chars(n: usize) -> (r: Vec<char>)
    ensures
        r@ == dec_str(n as int),
    decreases n,
{
    let digit = ((48 + (n % 10) as u8)) as char;
    if n < 10 {
        let mut r: Vec<char> = Vec::new();
        r.push(digit);
        proof {
            assert(r@ =~= dec_str(n as int));
        }
        r
    } else {
        let mut r = dec_chars(n / 10);
        r.push(digit);
        r
    }
}

/// Renders a number in decimal.
pub fn usize_to_string(n: usize) -> (r: String)
    ensures
        r@ == dec_str(n as int),
{
    string_from_chars(dec_chars(n))
}

/// The needle occurs in the haystack starting at position `i`.
pub open spec fn occurs_at(hay: Seq<char>, needle: Seq<char>, i: int) -> bool {
    &&& 0 <= i
    &&& i + needle.len() <= hay.len()
    &&& hay.subrange(i, i + needle.len()) == needle
}

/// The needle occurs somewhere in the haystack.
pub open spec fn contains_seq(hay: Seq<char>, needle: Seq<char>) -> bool {
    exists|i: int| occurs_at(hay, needle, i)
}

/// Substring search over characters.
pub fn contains_str(hay: &str, needle: &str) -> (r: bool)
    ensures
        r == contains_seq(hay@, needle@),
{
    let h_len = hay.unicode_len();
    let n_len = needle.unicode_len();
    if n_len > h_len {
        proof {
            assert(forall|i: int| !occurs_at(hay@, needle@, i));
        }
        return false;
    }
    let mut i: usize = 0;
    while i <= h_len - n_len
        invariant
            n_len == needle@.len(),
            h_len == hay@.len(),
            n_len <= h_len,
            i <= h_len - n_len + 1,
            forall|k: int| 0 <= k < i ==> !occurs_at(hay@, needle@, k),
        decreases h_len - n_len + 1 - i,
    {
        let mut j: usize = 0;
        let mut matched = true;
        while j < n_len
            invariant
                n_len == needle@.len(),
                h_len == hay@.len(),
                i + n_len <= h_len,
                j <= n_len,
                matched <==> hay@.subrange(i as int, i + j as int) =~= needle@.take(j as int),
            decreases n_len - j,
        {
            let hc = hay.get_char(i + j);
            let nc = needle.get_char(j);
            proof {
                if matched && hc == nc {
                    assert(hay@.subrange(i as int, i + j + 1 as int) =~= needle@.take(
                        j + 1 as int,
                    ));
                } else {
                    assert(hay@.subrange(i as int, i + j + 1 as int) != needle@.take(j + 1 as int))
                        by {
                        if hc != nc {
                            assert(hay@.subrange(i as int, i + j + 1 as int)[j as int] == hc);
                            assert(needle@.take(j + 1 as int)[j as int] == nc);
                        } else {
                            assert(hay@.subrange(i as int, i + j as int) != needle@.take(j as int));
                            assert(hay@.subrange(i as int, i + j + 1 as int).take(j as int)
                                =~= hay@.subrange(i as int, i + j as int));
                            assert(needle@.take(j + 1 as int).take(j as int) =~= needle@.take(
                                j as int,
                            ));
                        }
                    }
                }
            }
            matched = matched && hc == nc;
            j = j + 1;
        }
        if matched {
            proof {
                assert(needle@.take(n_len as int) =~= needle@);
                assert(occurs_at(hay@, needle@, i as int));
            }
            return true;
        }
        proof {
            assert(hay@.subrange(i as int, i + n_len as int) != needle@);
        }
        i = i + 1;
    }
    proof {
        assert(forall|k: int| occurs_at(hay@, needle@, k) ==> 0 <= k <= h_len - n_len);
    }
    false
}

} // verus!
