//! Character and string helpers the resolver's text handling rests on:
//! exact string comparison, ASCII upper-casing, whitespace trimming, octal
//! rendering of permission bits, and splitting a search-path variable.

use vstd::prelude::*;
use vstd::string::*;

verus! {

/// Appends one character at the end of a string.
///
/// Relies on `String::push`: appends the given character to the end of the
/// string.
#[verifier::external_body]
pub(crate) fn push_char(s: &mut String, c: char)
    ensures
        final(s)@ == old(s)@.push(c),
{
    s.push(c);
}

/// Exact, case-sensitive equality of two strings.
pub fn str_eq(a: &str, b: &str) -> (r: bool)
    ensures
        r == (a@ == b@),
{
    let n = a.unicode_len();
    if n != b.unicode_len() {
        return false;
    }
    let mut i: usize = 0;
    while i < n
        invariant
            i <= n,
            n == a@.len(),
            n == b@.len(),
            forall|k: int| 0 <= k < i ==> a@[k] == b@[k],
        decreases n - i,
    {
        if a.get_char(i) != b.get_char(i) {
            return false;
        }
        i += 1;
    }
    proof {
        assert(a@ =~= b@);
    }
    true
}

/// The ASCII upper-case image of one character; characters outside
/// `'a'..='z'` are unchanged.
pub open spec fn ascii_upper_char(c: char) -> char {
    if 'a' <= c && c <= 'z' {
        ((c as u8) - 32) as char
    } else {
        c
    }
}

/// The characterwise ASCII upper-case image of a character sequence.
pub open spec fn ascii_upper(s: Seq<char>) -> Seq<char> {
    Seq::new(s.len(), |i: int| ascii_upper_char(s[i]))
}

/// Upper-cases one character, ASCII-only.
pub fn to_upper_char(c: char) -> (r: char)
    ensures
        r == ascii_upper_char(c),
{
    if 'a' <= c && c <= 'z' {
        ((c as u8) - 32) as char
    } else {
        c
    }
}

/// Upper-cases a string, ASCII-only; other characters pass through.
pub fn to_ascii_upper(s: &str) -> (r: String)
    ensures
        r@ == ascii_upper(s@),
{
    let mut r = String::new();
    let n = s.unicode_len();
    let mut i: usize = 0;
    while i < n
        invariant
            i <= n,
            n == s@.len(),
            r@ == ascii_upper(s@).subrange(0, i as int),
        decreases n - i,
    {
        push_char(&mut r, to_upper_char(s.get_char(i)));
        proof {
            assert(r@ =~= ascii_upper(s@).subrange(0, i + 1));
        }
        i += 1;
    }
    proof {
        assert(ascii_upper(s@).subrange(0, n as int) =~= ascii_upper(s@));
    }
    r
}

/// The whitespace characters that trimming strips at either end.
pub open spec fn is_space_char(c: char) -> bool {
    c == ' ' || c == '\t' || c == '\n' || c == '\r'
}

/// Whether one character is trimmable whitespace.
pub fn is_space(c: char) -> (r: bool)
    ensures
        r == is_space_char(c),
{
    c == ' ' || c == '\t' || c == '\n' || c == '\r'
}

/// The sequence with its leading whitespace stripped.
pub open spec fn trim_front(s: Seq<char>) -> Seq<char>
    decreases s.len(),
{
    if s.len() > 0 && is_space_char(s[0]) {
        trim_front(s.drop_first())
    } else {
        s
    }
}

/// The sequence with its trailing whitespace stripped.
pub open spec fn trim_back(s: Seq<char>) -> Seq<char>
    decreases s.len(),
{
    if s.len() > 0 && is_space_char(s.last()) {
        trim_back(s.drop_last())
    } else {
        s
    }
}

/// The sequence with whitespace stripped at both ends.
pub open spec fn trimmed(s: Seq<char>) -> Seq<char> {
    trim_back(trim_front(s))
}

proof fn lemma_trim_front_chars(s: Seq<char>, i: int)
    requires
        0 <= i <= s.len(),
        forall|k: int| 0 <= k < i ==> is_space_char(s[k]),
        i < s.len() ==> !is_space_char(s[i]),
    ensures
        trim_front(s) =~= s.subrange(i, s.len() as int),
    decreases i,
{
    if i == 0 {
        assert(s.subrange(0, s.len() as int) =~= s);
    } else {
        lemma_trim_front_chars(s.drop_first(), i - 1);
        assert(s.drop_first().subrange(i - 1, s.drop_first().len() as int) =~= s.subrange(
            i,
            s.len() as int,
        ));
    }
}

proof fn lemma_trim_back_chars(s: Seq<char>, j: int)
    requires
        0 <= j <= s.len(),
        forall|k: int| j <= k < s.len() ==> is_space_char(s[k]),
        j > 0 ==> !is_space_char(s[j - 1]),
    ensures
        trim_back(s) =~= s.subrange(0, j),
    decreases s.len(),
{
    if j == s.len() {
        if s.len() > 0 && is_space_char(s.last()) {
            lemma_trim_back_chars(s.drop_last(), j - 1);
            assert(s.drop_last().subrange(0, j - 1) =~= s.subrange(0, j - 1));
        } else {
            assert(s.subrange(0, s.len() as int) =~= s);
        }
    } else {
        lemma_trim_back_chars(s.drop_last(), j);
        assert(s.drop_last().subrange(0, j) =~= s.subrange(0, j));
    }
}

/// Strips whitespace at both ends of a string.
pub fn trim_spaces(s: &str) -> (r: String)
    ensures
        r@ == trimmed(s@),
{
    let n = s.unicode_len();
    let mut i: usize = 0;
    while i < n && is_space(s.get_char(i))
        invariant
            i <= n,
            n == s@.len(),
            forall|k: int| 0 <= k < i ==> is_space_char(s@[k]),
        decreases n - i,
    {
        i += 1;
    }
    let mut j: usize = n;
    while j > i && is_space(s.get_char(j - 1))
        invariant
            i <= j <= n,
            n == s@.len(),
            forall|k: int| j <= k < n ==> is_space_char(s@[k]),
        decreases j,
    {
        j -= 1;
    }
    let t = s.substring_char(i, j);
    proof {
        lemma_trim_front_chars(s@, i as int);
        lemma_trim_back_chars(s@.subrange(i as int, n as int), j - i);
        assert(s@.subrange(i as int, n as int).subrange(0, j - i) =~= s@.subrange(
            i as int,
            j as int,
        ));
        assert(trimmed(s@) =~= s@.subrange(i as int, j as int));
    }
    t.to_owned()
}

/// The character for one octal digit.
pub open spec fn octal_digit_char(d: int) -> char {
    ((48 + d) as u8) as char
}

/// The octal digits of a number, most significant first, with no leading
/// zero except for the number zero itself.
pub open spec fn octal_digits(n: nat) -> Seq<char>
    decreases n,
{
    if n < 8 {
        seq![octal_digit_char(n as int)]
    } else {
        octal_digits(n / 8).push(octal_digit_char((n % 8) as int))
    }
}

fn octal_into(s: &mut String, n: u32)
    ensures
        final(s)@ == old(s)@ + octal_digits(n as nat),
    decreases n,
{
    if n < 8 {
        let c: char = ((48 + n) as u8) as char;
        push_char(s, c);
        proof {
            assert(s@ =~= old(s)@ + octal_digits(n as nat));
        }
    } else {
        octal_into(s, n / 8);
        let d: u32 = n % 8;
        let c: char = ((48 + d) as u8) as char;
        push_char(s, c);
        proof {
            assert(s@ =~= old(s)@ + octal_digits(n as nat));
        }
    }
}

/// Renders a number in octal, as permission modes are conventionally shown.
pub fn octal_string(n: u32) -> (r: String)
    ensures
        r@ == octal_digits(n as nat),
{
    let mut s = String::new();
    octal_into(&mut s, n);
    proof {
        assert(s@ =~= octal_digits(n as nat));
    }
    s
}

/// A search-path variable split at every colon: the sequence of segments,
/// empty segments included, as a POSIX shell reads `PATH`.
pub open spec fn split_colon(s: Seq<char>) -> Seq<Seq<char>>
    decreases s.len(),
{
    if s.len() == 0 {
        seq![Seq::<char>::empty()]
    } else if s.last() == ':' {
        split_colon(s.drop_last()).push(Seq::<char>::empty())
    } else {
        let r = split_colon(s.drop_last());
        r.update(r.len() - 1, r.last().push(s.last()))
    }
}

/// Splits a search-path variable into its colon-separated segments.
pub fn split_search_paths(s: &str) -> (r: Vec<String>)
    ensures
        r.deep_view() == split_colon(s@),
{
    let mut segments: Vec<String> = Vec::new();
    let mut cur = String::new();
    let n = s.unicode_len();
    let mut i: usize = 0;
    while i < n
        invariant
            i <= n,
            n == s@.len(),
            segments.deep_view().push(cur@) == split_colon(s@.subrange(0, i as int)),
        decreases n - i,
    {
        let c = s.get_char(i);
        proof {
            assert(s@.subrange(0, i + 1).drop_last() =~= s@.subrange(0, i as int));
            assert(s@.subrange(0, i + 1).last() == s@[i as int]);
        }
        if c == ':' {
            let done = cur;
            cur = String::new();
            segments.push(done);
            proof {
                assert(segments.deep_view().push(cur@) =~~= split_colon(
                    s@.subrange(0, i + 1),
                ));
            }
        } else {
            push_char(&mut cur, c);
            proof {
                assert(segments.deep_view().push(cur@) =~~= split_colon(
                    s@.subrange(0, i + 1),
                ));
            }
        }
        i += 1;
    }
    proof {
        assert(s@.subrange(0, n as int) =~= s@);
    }
    segments.push(cur);
    proof {
        assert(segments.deep_view() =~~= split_colon(s@));
    }
    segments
}

} // verus!
