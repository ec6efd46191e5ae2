//! Text helpers: decimal rendering, `Debug` quoting, Unicode white space,
//! character prefixes, suffix trimming and joining.

use vstd::prelude::*;
use vstd::utf8::*;

verus! {

/// The ASCII digit for `d` (`d < 10`).
pub open spec fn digit_char(d: nat) -> char {
    (48 + d) as char
}

/// The decimal digits of `n`, most significant first, without leading zeros.
pub open spec fn decimal_digits(n: nat) -> Seq<char>
    decreases n,
{
    if n < 10 {
        seq![digit_char(n)]
    } else {
        decimal_digits(n / 10) + seq![digit_char(n % 10)]
    }
}

/// Decimal rendering of a signed integer: a `-` before the digits of its magnitude
/// when it is negative.
pub open spec fn signed_decimal(n: int) -> Seq<char> {
    if n < 0 {
        seq!['-'] + decimal_digits((-n) as nat)
    } else {
        decimal_digits(n as nat)
    }
}

/// The number that a string of decimal digits denotes.
pub open spec fn digits_value(digits: Seq<char>) -> int
    decreases digits.len(),
{
    if digits.len() == 0 {
        0
    } else {
        digits_value(digits.drop_last()) * 10 + (digits.last() as int - 48)
    }
}

/// The decimal digits of `n` are ASCII digits, denote `n`, and begin with `0` only for 0.
pub proof fn decimal_digits_denote_the_number(n: nat)
    ensures
        decimal_digits(n).len() > 0,
        forall|i: int| 0 <= i < decimal_digits(n).len() ==> 48 <= (#[trigger] decimal_digits(n)[i] as u32) <= 57,
        digits_value(decimal_digits(n)) == n,
        decimal_digits(n)[0] == '0' ==> n == 0,
    decreases n,
{
    if n >= 10 {
        decimal_digits_denote_the_number(n / 10);
        let d = decimal_digits(n);
        assert(d.drop_last() =~= decimal_digits(n / 10));
        assert(d[0] == decimal_digits(n / 10)[0]);
        assert(d.last() == digit_char(n % 10));
        assert(digit_char(n % 10) as int == 48 + n % 10);
        assert((n / 10) * 10 + n % 10 == n);
        assert(digits_value(d) == digits_value(d.drop_last()) * 10 + (d.last() as int - 48));
    } else {
        let d = decimal_digits(n);
        assert(d.drop_last() =~= Seq::<char>::empty());
        assert(digits_value(d) == digits_value(d.drop_last()) * 10 + (d.last() as int - 48));
        assert(digit_char(n) as int == 48 + n);
    }
}

/// Signed decimal text is `-` and the digits of the magnitude for a negative number, and
/// just the digits otherwise.
pub proof fn signed_decimal_denotes_the_number(n: int)
    ensures
        n < 0 ==> signed_decimal(n)[0] == '-' && digits_value(signed_decimal(n).skip(1)) == -n,
        n >= 0 ==> digits_value(signed_decimal(n)) == n && signed_decimal(n)[0] != '-',
{
    if n < 0 {
        decimal_digits_denote_the_number((-n) as nat);
        assert(signed_decimal(n).skip(1) =~= decimal_digits((-n) as nat));
    } else {
        decimal_digits_denote_the_number(n as nat);
    }
}

/// Renders `n` in decimal through `u64`'s `Display` (`ToString::to_string`).
/// Claimed of std: the text is the decimal digits of `n`, with no sign and no
/// leading zeros.
#[verifier::external_body]
pub(crate) fn u64_to_decimal(n: u64) -> (res: String)
    ensures
        res@ == decimal_digits(n as nat),
{
    n.to_string()
}

/// Renders `n` in decimal through `i64`'s `Display` (`ToString::to_string`).
/// Claimed of std: a `-` for negative values, then the decimal digits of the
/// magnitude without leading zeros.
#[verifier::external_body]
pub(crate) fn i64_to_decimal(n: i64) -> (res: String)
    ensures
        res@ == signed_decimal(n as int),
{
    n.to_string()
}

/// What `str`'s `Debug` implementation writes for a string: the text between
/// double quotes, with escapes.
pub uninterp spec fn str_debug_text(s: Seq<char>) -> Seq<char>;

/// Formats `s` with `{:?}` (std's `Debug` for `str`). Claimed of std: the text
/// depends on the characters of `s` alone; what it is, is left to that name.
#[verifier::external_body]
pub(crate) fn debug_text(s: &str) -> (res: String)
    ensures
        res@ == str_debug_text(s@),
{
    format!("{:?}", s)
}

/// What `FromUtf8Error`'s `Debug` implementation writes for the error that
/// `String::from_utf8` reports on `bytes`.
pub uninterp spec fn utf8_error_debug_text(bytes: Seq<u8>) -> Seq<char>;

/// `String::from_utf8`. Claimed of std: it succeeds exactly on well-formed UTF-8
/// (then the string holds the decoded characters); on failure the error is rendered
/// with `{:?}`, a text that depends on the bytes alone (named `utf8_error_debug_text`).
#[verifier::external_body]
pub(crate) fn string_from_utf8(bytes: Vec<u8>) -> (res: Result<String, String>)
    ensures
        res is Ok <==> valid_utf8(bytes@),
        res matches Ok(s) ==> s@ == decode_utf8(bytes@),
        res matches Err(text) ==> text@ == utf8_error_debug_text(bytes@),
{
    match String::from_utf8(bytes) {
        Ok(s) => Ok(s),
        Err(e) => Err(format!("{:?}", e)),
    }
}

/// The Unicode `White_Space` property, code point by code point.
pub open spec fn is_white_space(c: char) -> bool {
    let u = c as u32;
    ||| 0x09 <= u <= 0x0D
    ||| u == 0x20
    ||| u == 0x85
    ||| u == 0xA0
    ||| u == 0x1680
    ||| 0x2000 <= u <= 0x200A
    ||| u == 0x2028
    ||| u == 0x2029
    ||| u == 0x202F
    ||| u == 0x205F
    ||| u == 0x3000
}

/// Whether `c` has the Unicode `White_Space` property (as `char::is_whitespace`).
pub fn char_is_whitespace(c: char) -> (res: bool)
    ensures
        res == is_white_space(c),
{
    let u = c as u32;
    (0x09 <= u && u <= 0x0D) || u == 0x20 || u == 0x85 || u == 0xA0 || u == 0x1680
        || (0x2000 <= u && u <= 0x200A) || u == 0x2028 || u == 0x2029 || u == 0x202F
        || u == 0x205F || u == 0x3000
}

/// True when trimming white space would shorten `s`: its first or its last
/// character is white space.
pub open spec fn has_edge_white_space(s: Seq<char>) -> bool {
    s.len() > 0 && (is_white_space(s[0]) || is_white_space(s.last()))
}

/// Whether `s` begins or ends with white space.
pub fn has_edge_whitespace(s: &str) -> (res: bool)
    ensures
        res == has_edge_white_space(s@),
{
    let n = s.unicode_len();
    if n == 0 {
        return false;
    }
    let first = s.get_char(0);
    let last = s.get_char(n - 1);
    char_is_whitespace(first) || char_is_whitespace(last)
}

/// The first `n` characters of `s`, or all of `s` when it is shorter.
pub open spec fn char_prefix(s: Seq<char>, n: nat) -> Seq<char> {
    if n <= s.len() {
        s.take(n as int)
    } else {
        s
    }
}

/// A character prefix has `min(n, |s|)` characters, each the character of `s` at the
/// same place.
pub proof fn char_prefix_is_the_first_characters(s: Seq<char>, n: nat)
    ensures
        char_prefix(s, n).len() == if n <= s.len() { n } else { s.len() },
        forall|i: int| 0 <= i < char_prefix(s, n).len() ==> #[trigger] char_prefix(s, n)[i] == s[i],
{
}

/// The first `n` characters of `s` as a new string.
pub fn take_chars(s: &str, n: usize) -> (res: String)
    ensures
        res@ == char_prefix(s@, n as nat),
{
    let len = s.unicode_len();
    let end = if n < len { n } else { len };
    let prefix = s.substring_char(0, end);
    proof {
        assert(s@.subrange(0, len as int) =~= s@);
    }
    String::from_str(prefix)
}

/// `s` with every trailing `c` removed.
pub open spec fn trim_end_char(s: Seq<char>, c: char) -> Seq<char>
    decreases s.len(),
{
    if s.len() > 0 && s.last() == c {
        trim_end_char(s.drop_last(), c)
    } else {
        s
    }
}

proof fn lemma_trim_end_char_step(s: Seq<char>, c: char, k: int)
    requires
        0 <= k <= s.len(),
        forall|i: int| k <= i < s.len() ==> s[i] == c,
    ensures
        trim_end_char(s, c) == trim_end_char(s.take(k), c),
    decreases s.len() - k,
{
    if k < s.len() {
        assert(s.drop_last() =~= s.take(s.len() - 1));
        lemma_trim_end_char_step(s.drop_last(), c, k);
        assert(s.drop_last().take(k) =~= s.take(k));
    } else {
        assert(s.take(k) =~= s);
    }
}

/// `s` with every trailing `c` removed (`str::trim_end_matches` with a `char`).
pub fn trim_end_matching<'a>(s: &'a str, c: char) -> (res: &'a str)
    ensures
        res@ == trim_end_char(s@, c),
{
    let len = s.unicode_len();
    let mut k: usize = len;
    while k > 0 && s.get_char(k - 1) == c
        invariant
            k <= len,
            len == s@.len(),
            forall|i: int| k <= i < len ==> s@[i] == c,
        decreases k,
    {
        k = k - 1;
    }
    proof {
        lemma_trim_end_char_step(s@, c, k as int);
        let t = s@.take(k as int);
        if k > 0 {
            assert(t.last() != c);
        }
        assert(s@.subrange(0, k as int) =~= t);
    }
    s.substring_char(0, k)
}

/// The pieces of `list` with `sep` between each two neighbours.
pub open spec fn join_with(list: Seq<Seq<char>>, sep: Seq<char>) -> Seq<char>
    decreases list.len(),
{
    if list.len() == 0 {
        seq![]
    } else if list.len() == 1 {
        list[0]
    } else {
        join_with(list.drop_last(), sep) + sep + list.last()
    }
}

/// Joining puts the separator between each two neighbours and nowhere else: no pieces
/// give nothing, one piece gives itself, and one more piece adds the separator and it.
pub proof fn join_with_separates_neighbours(list: Seq<Seq<char>>, sep: Seq<char>, piece: Seq<char>)
    ensures
        join_with(Seq::empty(), sep) == Seq::<char>::empty(),
        join_with(seq![piece], sep) == piece,
        list.len() > 0 ==> join_with(list.push(piece), sep) == join_with(list, sep) + sep + piece,
{
    assert(list.push(piece).drop_last() =~= list);
}

/// The views of a list of strings.
pub open spec fn string_views(list: Seq<String>) -> Seq<Seq<char>> {
    list.map_values(|s: String| s@)
}

/// Joins `list` with `sep` between each two neighbours (`[String]::join`).
pub fn join_strings(list: &Vec<String>, sep: &str) -> (res: String)
    ensures
        res@ == join_with(string_views(list@), sep@),
{
    let ghost views = string_views(list@);
    let mut res = String::new();
    let mut i: usize = 0;
    while i < list.len()
        invariant
            i <= list.len(),
            views == string_views(list@),
            res@ == join_with(views.take(i as int), sep@),
        decreases list.len() - i,
    {
        proof {
            assert(views.take(i + 1).drop_last() =~= views.take(i as int));
            assert(views.take(i + 1).last() == list@[i as int]@);
        }
        if i != 0 {
            res.append(sep);
        }
        res.append(list[i].as_str());
        proof {
            if i == 0 {
                assert(views.take(1) =~= seq![list@[0]@]);
            }
        }
        i = i + 1;
    }
    proof {
        assert(views.take(list.len() as int) =~= views);
    }
    res
}

} // verus!
