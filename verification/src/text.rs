use vstd::prelude::*;

verus! {

/// What `str::to_lowercase` makes of a text: its Unicode lowercase mapping.
pub uninterp spec fn lowercase_of(s: Seq<char>) -> Seq<char>;

/// What `std::path::Path::extension` gives for a path: the part of its last
/// component after the final `.`, if there is one. Which characters separate
/// components depends on the platform the crate is built for.
pub uninterp spec fn extension_of(path: Seq<char>) -> Option<Seq<char>>;

/// Calls `str::to_lowercase`; the result is the text that `lowercase_of`
/// names, and the empty text stays empty (every character maps to at least
/// one character, and no character comes from nothing).
#[verifier::external_body]
pub fn to_lowercase(s: &str) -> (r: String)
    ensures
        r@ == lowercase_of(s@),
        r@.len() == 0 <==> s@.len() == 0,
{
    s.to_lowercase()
}

/// Calls `std::path::Path::extension` on the path `path` and converts the
/// extension back to text (a path made from text has an extension that is
/// text). The result is what `extension_of` names.
#[verifier::external_body]
pub fn path_extension(path: &str) -> (r: Option<String>)
    ensures
        match r {
            Some(e) => extension_of(path@) == Some(e@),
            None => extension_of(path@) is None,
        },
{
    match std::path::Path::new(path).extension() {
        Some(e) => e.to_str().map(str::to_owned),
        None => None,
    }
}

/// Whether two texts are the same, character by character.
pub fn same_text(a: &str, b: &str) -> (r: bool)
    ensures
        r == (a@ == b@),
{
    let n = a.unicode_len();
    if n != b.unicode_len() {
        return false;
    }
    let mut i: usize = 0;
    while i < n
        invariant
            n == a@.len(),
            n == b@.len(),
            0 <= i <= n,
            forall|j: int| 0 <= j < i ==> a@[j] == b@[j],
        decreases n - i,
    {
        if a.get_char(i) != b.get_char(i) {
            return false;
        }
        i = i + 1;
    }
    assert(a@ =~= b@);
    true
}

/// `c` has the Unicode `White_Space` property (what `char::is_whitespace`
/// answers): the ASCII tab, line feed, vertical tab, form feed, carriage
/// return and space, U+0085, U+00A0, U+1680, U+2000 to U+200A, U+2028,
/// U+2029, U+202F, U+205F and U+3000.
pub open spec fn is_white_space(c: char) -> bool {
    ||| '\t' <= c <= '\r'
    ||| c == ' '
    ||| c == '\u{85}'
    ||| c == '\u{a0}'
    ||| c == '\u{1680}'
    ||| '\u{2000}' <= c <= '\u{200a}'
    ||| c == '\u{2028}'
    ||| c == '\u{2029}'
    ||| c == '\u{202f}'
    ||| c == '\u{205f}'
    ||| c == '\u{3000}'
}

/// What `str::trim` makes of a text: the text with the white space at both
/// of its ends taken off.
pub open spec fn trimmed_of(s: Seq<char>) -> Seq<char>
    decreases s.len(),
{
    if s.len() > 0 && is_white_space(s[0]) {
        trimmed_of(s.drop_first())
    } else if s.len() > 0 && is_white_space(s.last()) {
        trimmed_of(s.drop_last())
    } else {
        s
    }
}

/// Whether `c` is white space, as `char::is_whitespace` answers.
pub fn white_space(c: char) -> (r: bool)
    ensures
        r == is_white_space(c),
{
    ('\t' <= c && c <= '\r') || c == ' ' || c == '\u{85}' || c == '\u{a0}' || c == '\u{1680}'
        || ('\u{2000}' <= c && c <= '\u{200a}') || c == '\u{2028}' || c == '\u{2029}' || c
        == '\u{202f}' || c == '\u{205f}' || c == '\u{3000}'
}

/// Cutting the white space before index `i` and from index `j` on, where
/// `i` and `j` stop at the first and after the last other character, is
/// trimming.
proof fn lemma_trimmed_is_subrange(s: Seq<char>, i: int, j: int)
    requires
        0 <= i <= j <= s.len(),
        forall|k: int| 0 <= k < i ==> is_white_space(#[trigger] s[k]),
        forall|k: int| j <= k < s.len() ==> is_white_space(#[trigger] s[k]),
        i < j ==> !is_white_space(s[i]) && !is_white_space(s[j - 1]),
    ensures
        trimmed_of(s) == s.subrange(i, j),
    decreases s.len(),
{
    if s.len() > 0 && is_white_space(s[0]) {
        let t = s.drop_first();
        let i2 = if i > 0 { i - 1 } else { 0 };
        let j2 = if j > 0 { j - 1 } else { 0 };
        assert forall|k: int| 0 <= k < i2 implies is_white_space(#[trigger] t[k]) by {
            assert(t[k] == s[k + 1]);
        }
        assert forall|k: int| j2 <= k < t.len() implies is_white_space(#[trigger] t[k]) by {
            assert(t[k] == s[k + 1]);
        }
        if i2 < j2 {
            assert(t[i2] == s[i2 + 1]);
            assert(t[j2 - 1] == s[j2]);
        }
        lemma_trimmed_is_subrange(t, i2, j2);
        assert(t.subrange(i2, j2) =~= s.subrange(i, j));
    } else if s.len() > 0 && is_white_space(s.last()) {
        let t = s.drop_last();
        assert(j < s.len()) by {
            if j == s.len() && i < j {
                assert(!is_white_space(s[j - 1]));
            }
            if j == s.len() && i == j {
                assert(is_white_space(s[0]));
            }
        }
        assert forall|k: int| 0 <= k < i implies is_white_space(#[trigger] t[k]) by {
            assert(t[k] == s[k]);
        }
        assert forall|k: int| j <= k < t.len() implies is_white_space(#[trigger] t[k]) by {
            assert(t[k] == s[k]);
        }
        if i < j {
            assert(t[i] == s[i]);
            assert(t[j - 1] == s[j - 1]);
        }
        lemma_trimmed_is_subrange(t, i, j);
        assert(t.subrange(i, j) =~= s.subrange(i, j));
    } else if s.len() > 0 {
        assert(i == 0) by {
            if i > 0 {
                assert(is_white_space(s[0]));
            }
        }
        assert(j == s.len()) by {
            if j < s.len() {
                assert(is_white_space(s[s.len() - 1]));
            }
        }
        assert(s.subrange(i, j) =~= s);
    } else {
        assert(s.subrange(i, j) =~= s);
    }
}

/// What trimming keeps is a stretch of the text: all that comes before it
/// and all that comes after it is white space, and, unless it is empty, it
/// neither starts nor ends with white space.
pub proof fn law_trimming_keeps_the_middle(s: Seq<char>)
    ensures
        exists|i: int, j: int|
            {
                &&& 0 <= i <= j <= s.len()
                &&& trimmed_of(s) == s.subrange(i, j)
                &&& forall|k: int| 0 <= k < i ==> is_white_space(#[trigger] s[k])
                &&& forall|k: int| j <= k < s.len() ==> is_white_space(#[trigger] s[k])
                &&& i < j ==> !is_white_space(s[i]) && !is_white_space(s[j - 1])
            },
    decreases s.len(),
{
    if s.len() > 0 && is_white_space(s[0]) {
        let t = s.drop_first();
        law_trimming_keeps_the_middle(t);
        let (i, j) = choose|i: int, j: int|
            {
                &&& 0 <= i <= j <= t.len()
                &&& trimmed_of(t) == t.subrange(i, j)
                &&& forall|k: int| 0 <= k < i ==> is_white_space(#[trigger] t[k])
                &&& forall|k: int| j <= k < t.len() ==> is_white_space(#[trigger] t[k])
                &&& i < j ==> !is_white_space(t[i]) && !is_white_space(t[j - 1])
            };
        let (i2, j2) = if i == j { (s.len() as int, s.len() as int) } else { (i + 1, j + 1) };
        assert forall|k: int| 0 <= k < i2 implies is_white_space(#[trigger] s[k]) by {
            if k > 0 {
                assert(s[k] == t[k - 1]);
            }
        }
        assert forall|k: int| j2 <= k < s.len() implies is_white_space(#[trigger] s[k]) by {
            assert(s[k] == t[k - 1]);
        }
        if i < j {
            assert(s[i2] == t[i]);
            assert(s[j2 - 1] == t[j - 1]);
        }
        assert(t.subrange(i, j) =~= s.subrange(i2, j2));
    } else if s.len() > 0 && is_white_space(s.last()) {
        let t = s.drop_last();
        law_trimming_keeps_the_middle(t);
        let (i, j) = choose|i: int, j: int|
            {
                &&& 0 <= i <= j <= t.len()
                &&& trimmed_of(t) == t.subrange(i, j)
                &&& forall|k: int| 0 <= k < i ==> is_white_space(#[trigger] t[k])
                &&& forall|k: int| j <= k < t.len() ==> is_white_space(#[trigger] t[k])
                &&& i < j ==> !is_white_space(t[i]) && !is_white_space(t[j - 1])
            };
        assert forall|k: int| 0 <= k < i implies is_white_space(#[trigger] s[k]) by {
            assert(s[k] == t[k]);
        }
        assert forall|k: int| j <= k < s.len() implies is_white_space(#[trigger] s[k]) by {
            if k < t.len() {
                assert(s[k] == t[k]);
            }
        }
        if i < j {
            assert(s[i] == t[i]);
            assert(s[j - 1] == t[j - 1]);
        }
        assert(t.subrange(i, j) =~= s.subrange(i, j));
    } else {
        assert(s.subrange(0, s.len() as int) =~= s);
        if s.len() > 0 {
            assert(!is_white_space(s[s.len() - 1]));
        }
    }
}

/// The text without the white space at both of its ends, as `str::trim`
/// gives it.
pub fn trim(s: &str) -> (r: &str)
    ensures
        r@ == trimmed_of(s@),
{
    let n = s.unicode_len();
    let mut i: usize = 0;
    while i < n && white_space(s.get_char(i))
        invariant
            n == s@.len(),
            0 <= i <= n,
            forall|k: int| 0 <= k < i ==> is_white_space(#[trigger] s@[k]),
        decreases n - i,
    {
        i = i + 1;
    }
    let mut j: usize = n;
    while j > i && white_space(s.get_char(j - 1))
        invariant
            n == s@.len(),
            0 <= i <= j <= n,
            i < n ==> !is_white_space(s@[i as int]),
            forall|k: int| j <= k < n ==> is_white_space(#[trigger] s@[k]),
        decreases j - i,
    {
        j = j - 1;
    }
    proof {
        lemma_trimmed_is_subrange(s@, i as int, j as int);
    }
    s.substring_char(i, j)
}

/// `c` is one of the ASCII digits `0` to `9`.
pub open spec fn is_digit(c: char) -> bool {
    '0' <= c <= '9'
}

/// The number that a string of decimal digits writes.
pub open spec fn decimal_value(digits: Seq<char>) -> int
    decreases digits.len(),
{
    if digits.len() == 0 {
        0
    } else {
        decimal_value(digits.drop_last()) * 10 + (digits.last() as int - '0' as int)
    }
}

/// The text without a leading `+`, if it has one.
pub open spec fn without_plus_sign(s: Seq<char>) -> Seq<char> {
    if s.len() > 0 && s[0] == '+' {
        s.drop_first()
    } else {
        s
    }
}

/// What `u32::from_str` accepts and gives: an optional `+` followed by at
/// least one decimal digit, and nothing else, whose value fits in a `u32`.
pub open spec fn parsed_u32(s: Seq<char>) -> Option<u32> {
    let digits = without_plus_sign(s);
    if digits.len() > 0 && (forall|i: int| 0 <= i < digits.len() ==> is_digit(#[trigger] digits[i]))
        && decimal_value(digits) <= u32::MAX {
        Some(decimal_value(digits) as u32)
    } else {
        None
    }
}

/// A string of digits writes a number at least as large as any of its
/// prefixes writes, and no number below zero.
proof fn lemma_decimal_value_grows(digits: Seq<char>, j: int)
    requires
        0 <= j <= digits.len(),
        forall|i: int| 0 <= i < digits.len() ==> is_digit(#[trigger] digits[i]),
    ensures
        0 <= decimal_value(digits.take(j)) <= decimal_value(digits),
    decreases digits.len(),
{
    if digits.len() > 0 {
        let d = digits.drop_last();
        assert forall|i: int| 0 <= i < d.len() implies is_digit(#[trigger] d[i]) by {
            assert(d[i] == digits[i]);
        }
        if j == digits.len() {
            assert(digits.take(j) =~= digits);
            lemma_decimal_value_grows(d, d.len() as int);
            assert(d.take(d.len() as int) =~= d);
        } else {
            lemma_decimal_value_grows(d, j);
            assert(d.take(j) =~= digits.take(j));
            lemma_decimal_value_grows(d, d.len() as int);
            assert(d.take(d.len() as int) =~= d);
            assert(is_digit(digits.last()));
        }
    }
}

/// Reads a `u32` written in decimal, as `u32::from_str` does.
pub fn parse_u32(s: &str) -> (r: Option<u32>)
    ensures
        r == parsed_u32(s@),
{
    let n = s.unicode_len();
    let start: usize = if n > 0 && s.get_char(0) == '+' {
        1
    } else {
        0
    };
    let ghost digits = without_plus_sign(s@);
    assert(digits =~= s@.subrange(start as int, n as int));
    if start == n {
        return None;
    }
    let mut acc: u64 = 0;
    let mut i: usize = start;
    while i < n
        invariant
            n == s@.len(),
            start <= i <= n,
            digits =~= s@.subrange(start as int, n as int),
            digits == without_plus_sign(s@),
            forall|j: int| 0 <= j < i - start ==> is_digit(#[trigger] digits[j]),
            acc == decimal_value(digits.take(i - start)),
            acc <= u32::MAX,
        decreases n - i,
    {
        let c = s.get_char(i);
        let ghost k: int = i - start;
        if !('0' <= c && c <= '9') {
            assert(!is_digit(digits[k]));
            return None;
        }
        let d: u64 = (c as u64) - ('0' as u64);
        assert(digits.take(k + 1).drop_last() =~= digits.take(k));
        assert(digits.take(k + 1).last() == c);
        let next: u64 = acc * 10 + d;
        assert(next == decimal_value(digits.take(k + 1)));
        if next > 0xffff_ffff {
            proof {
                if forall|j: int| 0 <= j < digits.len() ==> is_digit(#[trigger] digits[j]) {
                    lemma_decimal_value_grows(digits, k + 1);
                }
            }
            return None;
        }
        acc = next;
        i = i + 1;
    }
    assert(digits.take(n - start) =~= digits);
    Some(acc as u32)
}

} // verus!
