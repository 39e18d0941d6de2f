//! Text building blocks: decimal numerals and joined strings.

use vstd::prelude::*;
use vstd::string::*;

verus! {

/// The character of one decimal digit.
pub open spec fn digit_char(d: nat) -> char
    recommends
        d < 10,
{
    if d == 0 {
        '0'
    } else if d == 1 {
        '1'
    } else if d == 2 {
        '2'
    } else if d == 3 {
        '3'
    } else if d == 4 {
        '4'
    } else if d == 5 {
        '5'
    } else if d == 6 {
        '6'
    } else if d == 7 {
        '7'
    } else if d == 8 {
        '8'
    } else {
        '9'
    }
}

/// The decimal numeral of `n`, without sign or leading zeros.
pub open spec fn decimal(n: nat) -> Seq<char>
    decreases n,
{
    if n < 10 {
        seq![digit_char(n)]
    } else {
        decimal(n / 10).push(digit_char(n % 10))
    }
}

/// `u64::to_string`: the number written in decimal digits, most significant
/// first, with no sign and no leading zeros.
#[verifier::external_body]
pub(crate) fn decimal_string(n: u64) -> (s: String)
    ensures
        s@ == decimal(n as nat),
{
    n.to_string()
}

/// The decimal numeral of `n`, with a minus sign when it is negative.
pub open spec fn signed_decimal(n: int) -> Seq<char> {
    if n < 0 {
        seq!['-'] + decimal((-n) as nat)
    } else {
        decimal(n as nat)
    }
}

/// `i64::to_string`: the number written in decimal digits, most significant
/// first, with no leading zeros, after a minus sign when it is negative.
#[verifier::external_body]
pub(crate) fn signed_decimal_string(n: i64) -> (s: String)
    ensures
        s@ == signed_decimal(n as int),
{
    n.to_string()
}

/// `prefix` followed by `rest`.
pub fn joined(prefix: &str, rest: &str) -> (s: String)
    ensures
        s@ == prefix@ + rest@,
{
    let head = prefix.to_owned();
    head.concat(rest)
}

/// `prefix` followed by the decimal numeral of `n`.
pub fn numbered(prefix: &str, n: u64) -> (s: String)
    ensures
        s@ == prefix@ + decimal(n as nat),
{
    let digits = decimal_string(n);
    joined(prefix, digits.as_str())
}

/// The decimal numeral of a 128-bit number: `u128::to_string`, the number
/// written in decimal digits, most significant first, with no sign and no
/// leading zeros.
#[verifier::external_body]
pub(crate) fn wide_decimal_string(n: u128) -> (s: String)
    ensures
        s@ == decimal(n as nat),
{
    n.to_string()
}

/// What `str::to_lowercase` makes of a text.
pub uninterp spec fn lowercase(s: Seq<char>) -> Seq<char>;

/// What `str::to_uppercase` makes of a text.
pub uninterp spec fn uppercase(s: Seq<char>) -> Seq<char>;

/// `str::to_lowercase`: the lowercase equivalent of the text, by the rules
/// of Unicode.
#[verifier::external_body]
pub(crate) fn to_lowercase(s: &str) -> (r: String)
    ensures
        r@ == lowercase(s@),
{
    s.to_lowercase()
}

/// `str::to_uppercase`: the uppercase equivalent of the text, by the rules
/// of Unicode.
#[verifier::external_body]
pub(crate) fn to_uppercase(s: &str) -> (r: String)
    ensures
        r@ == uppercase(s@),
{
    s.to_uppercase()
}

/// The text with every occurrence of the character `from` replaced by the
/// text `to`.
pub open spec fn replaced(s: Seq<char>, from: char, to: Seq<char>) -> Seq<char>
    decreases s.len(),
{
    if s.len() == 0 {
        Seq::empty()
    } else if s.last() == from {
        replaced(s.drop_last(), from, to) + to
    } else {
        replaced(s.drop_last(), from, to).push(s.last())
    }
}

/// `str::replace` with a character as the pattern: every occurrence of the
/// character is replaced by `to`, and the rest of the text is kept.
#[verifier::external_body]
pub(crate) fn replace_char(s: &str, from: char, to: &str) -> (r: String)
    ensures
        r@ == replaced(s@, from, to@),
{
    s.replace(from, to)
}

/// The text with a dash in the place of every space.
pub open spec fn dashed(s: Seq<char>) -> Seq<char> {
    replaced(s, ' ', "-"@)
}

/// The URL slug made of a text that was brought to lowercase: a dash stands
/// in the place of every space.
pub fn slug_of(lowered: &str) -> (slug: String)
    ensures
        slug@ == dashed(lowered@),
{
    replace_char(lowered, ' ', "-")
}

/// The URL slug of a name: the name in lowercase, with a dash in the place
/// of every space.
pub fn slug(name: &str) -> (slug: String)
    ensures
        slug@ == dashed(lowercase(name@)),
{
    let lowered = to_lowercase(name);
    slug_of(lowered.as_str())
}

/// Whether the text `a` stands before the text `b`, or is `b`, when texts
/// are ordered character by character by code point, a text before its
/// extensions.
pub open spec fn in_order(a: Seq<char>, b: Seq<char>) -> bool
    decreases a.len(),
{
    if a.len() == 0 {
        true
    } else if b.len() == 0 {
        false
    } else if a[0] != b[0] {
        (a[0] as u32) < (b[0] as u32)
    } else {
        in_order(a.skip(1), b.skip(1))
    }
}

/// The comparison `<=` of `str`: texts are ordered by their bytes, which is
/// the order of their characters by code point, a text before its
/// extensions.
#[verifier::external_body]
pub(crate) fn text_in_order(a: &str, b: &str) -> (r: bool)
    ensures
        r == in_order(a@, b@),
{
    a <= b
}

/// Whether `char::is_whitespace` holds of a character.
pub uninterp spec fn whitespace(c: char) -> bool;

/// Whether `char::is_alphanumeric` holds of a character.
pub uninterp spec fn alphanumeric(c: char) -> bool;

/// `char::is_whitespace`: whether the character has the Unicode property
/// `White_Space`.
#[verifier::external_body]
pub(crate) fn is_whitespace(c: char) -> (r: bool)
    ensures
        r == whitespace(c),
{
    c.is_whitespace()
}

/// `char::is_alphanumeric`: whether the character is alphabetic or numeric
/// by the Unicode character database.
#[verifier::external_body]
pub(crate) fn is_alphanumeric(c: char) -> (r: bool)
    ensures
        r == alphanumeric(c),
{
    c.is_alphanumeric()
}

/// The characters of a text, in order.
pub(crate) fn chars_of(s: &str) -> (r: Vec<char>)
    ensures
        r@ == s@,
{
    let mut chars: Vec<char> = Vec::new();
    for c in it: s.chars()
        invariant
            it.seq() == s@,
            chars@ == it.seq().take(it.index() as int),
    {
        chars.push(c);
    }
    chars
}

/// `String::from_iter` over characters: the text made of the characters,
/// in order.
#[verifier::external_body]
pub(crate) fn text_of(chars: &Vec<char>) -> (r: String)
    ensures
        r@ == chars@,
{
    chars.iter().collect()
}

/// The words read in the first `n` characters of a text, and the word that
/// is being read: a word ends at a whitespace character.
pub open spec fn words_before(s: Seq<char>, n: nat) -> (Seq<Seq<char>>, Seq<char>)
    decreases n,
{
    if n == 0 {
        (Seq::empty(), Seq::empty())
    } else {
        let (done, current) = words_before(s, (n - 1) as nat);
        if whitespace(s[n - 1]) {
            if current.len() > 0 {
                (done.push(current), Seq::empty())
            } else {
                (done, current)
            }
        } else {
            (done, current.push(s[n - 1]))
        }
    }
}

/// The words of a text: its longest runs of characters that are no
/// whitespace, in order.
pub open spec fn words(s: Seq<char>) -> Seq<Seq<char>> {
    let (done, current) = words_before(s, s.len());
    if current.len() > 0 {
        done.push(current)
    } else {
        done
    }
}

/// The words of a text.
pub fn split_words(s: &str) -> (r: Vec<String>)
    ensures
        crate::views::seq_view(r@) == words(s@),
{
    let chars = chars_of(s);
    let mut done: Vec<String> = Vec::new();
    let mut current: Vec<char> = Vec::new();
    assert(crate::views::seq_view(done@) =~= Seq::<Seq<char>>::empty());
    let mut i: usize = 0;
    while i < chars.len()
        invariant
            i <= chars.len(),
            chars@ == s@,
            (crate::views::seq_view(done@), current@) == words_before(s@, i as nat),
        decreases chars.len() - i,
    {
        let c = chars[i];
        if is_whitespace(c) {
            if current.len() > 0 {
                let word = text_of(&current);
                proof {
                    crate::views::seq_view_push(done@, word);
                }
                done.push(word);
                current = Vec::new();
            }
        } else {
            current.push(c);
        }
        i += 1;
    }
    if current.len() > 0 {
        let word = text_of(&current);
        proof {
            crate::views::seq_view_push(done@, word);
        }
        done.push(word);
    }
    done
}

/// The characters among the first `n` of a text that are letters, digits
/// or whitespace.
pub open spec fn plain_before(s: Seq<char>, n: nat) -> Seq<char>
    decreases n,
{
    if n == 0 {
        Seq::empty()
    } else if alphanumeric(s[n - 1]) || whitespace(s[n - 1]) {
        plain_before(s, (n - 1) as nat).push(s[n - 1])
    } else {
        plain_before(s, (n - 1) as nat)
    }
}

/// The text without the characters that are neither letters nor digits nor
/// whitespace.
pub open spec fn plain(s: Seq<char>) -> Seq<char> {
    plain_before(s, s.len())
}

/// The text without the characters that are neither letters nor digits nor
/// whitespace.
pub fn keep_plain(s: &str) -> (r: String)
    ensures
        r@ == plain(s@),
{
    let chars = chars_of(s);
    let mut kept: Vec<char> = Vec::new();
    let mut i: usize = 0;
    while i < chars.len()
        invariant
            i <= chars.len(),
            chars@ == s@,
            kept@ == plain_before(s@, i as nat),
        decreases chars.len() - i,
    {
        let c = chars[i];
        if is_alphanumeric(c) || is_whitespace(c) {
            kept.push(c);
        }
        i += 1;
    }
    text_of(&kept)
}

/// Whether the text `part` occurs in the text `whole`.
pub open spec fn occurs_in(part: Seq<char>, whole: Seq<char>) -> bool {
    exists|i: int|
        0 <= i <= whole.len() - part.len() && #[trigger] whole.subrange(i, i + part.len()) == part
}

/// `str::contains` with a text as the pattern: whether the pattern matches
/// a part of the text.
#[verifier::external_body]
pub(crate) fn text_contains(whole: &str, part: &str) -> (r: bool)
    ensures
        r == occurs_in(part@, whole@),
{
    whole.contains(part)
}

} // verus!
