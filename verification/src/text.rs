use vstd::prelude::*;

verus! {

broadcast use vstd::seq_lib::group_seq_properties;

/// The lower-case form of a string, as `str::to_lowercase` computes it.
pub uninterp spec fn lowercase(s: Seq<char>) -> Seq<char>;

/// The first character of the upper-case form of a character outside
/// ASCII, as `char::to_uppercase` yields it.
pub uninterp spec fn uppercase_first_beyond_ascii(c: char) -> char;

/// An ASCII character.
pub open spec fn is_ascii_char(c: char) -> bool {
    (c as u32) < 128
}

/// The upper-case form of an ASCII character: `a` to `z` become `A` to
/// `Z`, every other character stays as it is.
pub open spec fn ascii_upper(c: char) -> char {
    if 'a' <= c <= 'z' {
        ((c as u32) - 32) as char
    } else {
        c
    }
}

/// The first character of the upper-case form of a character, as
/// `char::to_uppercase` yields it: on ASCII, `a` to `z` go to upper case and
/// every other character stays; beyond ASCII it follows the Unicode case
/// tables.
pub open spec fn uppercase_first(c: char) -> char {
    if is_ascii_char(c) {
        ascii_upper(c)
    } else {
        uppercase_first_beyond_ascii(c)
    }
}

/// Whether a character belongs to one of Unicode's number categories, as
/// `char::is_numeric` tells.
pub uninterp spec fn numeric(c: char) -> bool;

/// Appends a character: `String::push`.
#[verifier::external_body]
pub(crate) fn push_char(s: &mut String, c: char)
    ensures
        final(s)@ == old(s)@.push(c),
{
    s.push(c);
}

/// Removes the last character: `String::pop`. Returns it, or `None` when the
/// string is empty, in which case it is left as it was.
#[verifier::external_body]
pub(crate) fn pop_char(s: &mut String) -> (r: Option<char>)
    ensures
        old(s)@.len() == 0 ==> r is None && final(s)@ == old(s)@,
        old(s)@.len() > 0 ==> r == Some(old(s)@.last()) && final(s)@ == old(s)@.drop_last(),
{
    s.pop()
}

/// The lower-case form of a string: `str::to_lowercase`. What it returns
/// depends on the string alone; the Unicode case tables it follows are not
/// restated here.
#[verifier::external_body]
pub(crate) fn to_lowercase(s: &str) -> (r: String)
    ensures
        r@ == lowercase(s@),
{
    s.to_lowercase()
}

/// The first character that `char::to_uppercase` yields for `c` (it always
/// yields at least one). On ASCII the upper-case mapping turns `a` to `z`
/// into `A` to `Z` and leaves every other character as it is; beyond ASCII
/// it follows the Unicode case tables, which are not restated here, except
/// that no character beyond ASCII has the space as its upper case.
#[verifier::external_body]
pub(crate) fn to_uppercase_first(c: char) -> (r: char)
    ensures
        is_ascii_char(c) ==> r == ascii_upper(c),
        !is_ascii_char(c) ==> r == uppercase_first_beyond_ascii(c),
        !is_ascii_char(c) ==> r != ' ',
{
    c.to_uppercase().next().unwrap()
}

/// Whether `c` is a number character: `char::is_numeric`. The ASCII digits
/// `0` to `9` are; which other characters Unicode files under its number
/// categories is not restated here.
#[verifier::external_body]
pub(crate) fn is_numeric_char(c: char) -> (r: bool)
    ensures
        r == numeric(c),
        '0' <= c <= '9' ==> r,
{
    c.is_numeric()
}

/// A character with the Unicode `White_Space` property, the set that
/// `char::is_whitespace` tests for.
pub open spec fn is_whitespace(c: char) -> bool {
    ||| ('\u{9}' <= c <= '\u{d}')
    ||| c == ' '
    ||| c == '\u{85}'
    ||| c == '\u{a0}'
    ||| c == '\u{1680}'
    ||| ('\u{2000}' <= c <= '\u{200a}')
    ||| c == '\u{2028}'
    ||| c == '\u{2029}'
    ||| c == '\u{202f}'
    ||| c == '\u{205f}'
    ||| c == '\u{3000}'
}

/// Whether `c` is a Unicode white-space character.
pub fn whitespace(c: char) -> (r: bool)
    ensures
        r == is_whitespace(c),
{
    ('\u{9}' <= c && c <= '\u{d}') || c == ' ' || c == '\u{85}' || c == '\u{a0}' || c == '\u{1680}'
        || ('\u{2000}' <= c && c <= '\u{200a}') || c == '\u{2028}' || c == '\u{2029}' || c
        == '\u{202f}' || c == '\u{205f}' || c == '\u{3000}'
}

/// The characters at which a word-wise erase stops: white space, `.`, `-`
/// and `_`.
pub open spec fn is_delimiter(c: char) -> bool {
    is_whitespace(c) || c == '.' || c == '-' || c == '_'
}

/// Whether `c` is a word delimiter.
pub fn delimiter(c: char) -> (r: bool)
    ensures
        r == is_delimiter(c),
{
    whitespace(c) || c == '.' || c == '-' || c == '_'
}

/// `s` cut just after its last delimiter; empty when it holds none.
pub open spec fn cut_after_last_delimiter(s: Seq<char>) -> Seq<char>
    decreases s.len(),
{
    if s.len() == 0 {
        s
    } else if is_delimiter(s.last()) {
        s
    } else {
        cut_after_last_delimiter(s.drop_last())
    }
}

/// What a word-wise backspace leaves of `s`: a trailing delimiter alone is
/// removed; otherwise everything after the last delimiter goes.
pub open spec fn erase_word(s: Seq<char>) -> Seq<char> {
    if s.len() == 0 {
        s
    } else if is_delimiter(s.last()) {
        s.drop_last()
    } else {
        cut_after_last_delimiter(s)
    }
}

/// The cut keeps a prefix of the string.
pub proof fn lemma_cut_is_prefix(s: Seq<char>)
    ensures
        cut_after_last_delimiter(s).len() <= s.len(),
        cut_after_last_delimiter(s) == s.take(cut_after_last_delimiter(s).len() as int),
    decreases s.len(),
{
    if s.len() > 0 && !is_delimiter(s.last()) {
        lemma_cut_is_prefix(s.drop_last());
        let c = cut_after_last_delimiter(s.drop_last());
        assert(s.drop_last().take(c.len() as int) =~= s.take(c.len() as int));
    } else {
        assert(s.take(s.len() as int) =~= s);
    }
}

/// A word-wise backspace leaves a prefix of the string.
pub proof fn lemma_erase_word_is_prefix(s: Seq<char>)
    ensures
        erase_word(s).len() <= s.len(),
        erase_word(s) == s.take(erase_word(s).len() as int),
{
    lemma_cut_is_prefix(s);
    if s.len() == 0 {
        assert(s.take(0) =~= s);
    }
}

/// Erases the last word of `s`, or the delimiter it ends in.
pub fn erase_word_in_place(s: &mut String)
    ensures
        final(s)@ == erase_word(old(s)@),
{
    let ghost orig = s@;
    let n = s.as_str().unicode_len();
    if n == 0 {
        return;
    }
    let last = s.as_str().get_char(n - 1);
    if delimiter(last) {
        pop_char(s);
        return;
    }
    let mut k = n;
    while k > 0
        invariant
            k <= n,
            orig == old(s)@,
            n == orig.len(),
            n > 0,
            !is_delimiter(orig.last()),
            s@ == orig.take(k as int),
            cut_after_last_delimiter(orig) == cut_after_last_delimiter(orig.take(k as int)),
        decreases k,
    {
        let c = s.as_str().get_char(k - 1);
        if delimiter(c) {
            assert(orig.take(k as int).last() == c);
            return;
        }
        proof {
            assert(orig.take(k as int).drop_last() =~= orig.take(k - 1));
        }
        pop_char(s);
        k = k - 1;
    }
}

/// Capitalises the first character of `s` and every character that follows
/// a space.
pub open spec fn capitalised_words(s: Seq<char>) -> Seq<char> {
    Seq::new(
        s.len(),
        |i: int|
            if i == 0 || s[i - 1] == ' ' {
                uppercase_first(s[i])
            } else {
                s[i]
            },
    )
}

/// Upper-cases the first letter of the string and every letter after a space.
pub fn uppercase_words(data: &str) -> (result: String)
    ensures
        result@ == capitalised_words(data@),
        forall|i: int| 0 <= i < data@.len() ==> (#[trigger] result@[i] == ' ') == (data@[i] == ' '),
{
    let mut result = String::new();
    let n = data.unicode_len();
    let mut first = true;
    for i in 0..n
        invariant
            n == data@.len(),
            result@ == capitalised_words(data@).take(i as int),
            first == (i == 0 || data@[i - 1] == ' '),
            forall|j: int| 0 <= j < i ==> (#[trigger] result@[j] == ' ') == (data@[j] == ' '),
    {
        let value = data.get_char(i);
        if first {
            push_char(&mut result, to_uppercase_first(value));
            first = false;
        } else {
            push_char(&mut result, value);
        }
        if value == ' ' {
            first = true;
        }
        assert(result@ =~= capitalised_words(data@).take(i + 1));
    }
    assert(capitalised_words(data@).take(n as int) =~= capitalised_words(data@));
    result
}

/// Whether two strings hold the same characters.
pub fn str_equal(a: &str, b: &str) -> (r: bool)
    ensures
        r == (a@ == b@),
{
    let n = a.unicode_len();
    if n != b.unicode_len() {
        return false;
    }
    for i in 0..n
        invariant
            n == a@.len(),
            n == b@.len(),
            forall|j: int| 0 <= j < i ==> a@[j] == b@[j],
    {
        if a.get_char(i) != b.get_char(i) {
            return false;
        }
    }
    assert(a@ =~= b@);
    true
}

/// `p` is a prefix of `s`.
pub open spec fn is_prefix(p: Seq<char>, s: Seq<char>) -> bool {
    p.len() <= s.len() && s.take(p.len() as int) == p
}

/// Whether `s` starts with `p`.
pub fn starts_with(s: &str, p: &str) -> (r: bool)
    ensures
        r == is_prefix(p@, s@),
{
    let n = s.unicode_len();
    let m = p.unicode_len();
    if m > n {
        return false;
    }
    for i in 0..m
        invariant
            n == s@.len(),
            m == p@.len(),
            m <= n,
            forall|j: int| 0 <= j < i ==> s@[j] == p@[j],
    {
        if s.get_char(i) != p.get_char(i) {
            assert(s@.take(m as int)[i as int] != p@[i as int]);
            return false;
        }
    }
    assert(s@.take(m as int) =~= p@);
    true
}

/// The characters of `s` from position `from` on; empty when `from` is past
/// the end.
pub open spec fn tail_from(s: Seq<char>, from: nat) -> Seq<char> {
    if from <= s.len() {
        s.subrange(from as int, s.len() as int)
    } else {
        Seq::empty()
    }
}

/// The characters of `s` from position `from` on.
pub fn tail_string(s: &str, from: usize) -> (r: String)
    ensures
        r@ == tail_from(s@, from as nat),
{
    let n = s.unicode_len();
    let mut r = String::new();
    if from > n {
        return r;
    }
    let mut i = from;
    while i < n
        invariant
            n == s@.len(),
            from <= i <= n,
            r@ == s@.subrange(from as int, i as int),
        decreases n - i,
    {
        push_char(&mut r, s.get_char(i));
        assert(r@ =~= s@.subrange(from as int, i + 1));
        i = i + 1;
    }
    r
}

/// `s` without its spaces.
pub open spec fn without_spaces(s: Seq<char>) -> Seq<char> {
    s.filter(|c: char| c != ' ')
}

/// Removes every space of `s`.
pub fn remove_spaces(s: &str) -> (r: String)
    ensures
        r@ == without_spaces(s@),
{
    let n = s.unicode_len();
    let mut r = String::new();
    for i in 0..n
        invariant
            n == s@.len(),
            r@ == without_spaces(s@.take(i as int)),
    {
        let c = s.get_char(i);
        if c != ' ' {
            push_char(&mut r, c);
        }
        proof {
            s@.take(i as int).lemma_filter_push(c, |c: char| c != ' ');
            assert(s@.take(i + 1) =~= s@.take(i as int).push(c));
        }
    }
    assert(s@.take(n as int) =~= s@);
    r
}

/// The decimal digit for `d < 10`.
pub open spec fn digit_char(d: nat) -> char {
    if d == 0 {
        '0'
    } else if d == 1 {
        '1'
    } else if d == 2 {
        '2'
    } else if d == 3 {
        '3'
    } else if d == 4 {
        '4'
    } else if d == 5 {
        '5'
    } else if d == 6 {
        '6'
    } else if d == 7 {
        '7'
    } else if d == 8 {
        '8'
    } else {
        '9'
    }
}

/// The decimal numeral of `n`, without leading zeros.
pub open spec fn decimal(n: nat) -> Seq<char>
    decreases n,
{
    if n < 10 {
        seq![digit_char(n)]
    } else {
        decimal(n / 10).push(digit_char(n % 10))
    }
}

fn digit(d: usize) -> (c: char)
    requires
        d < 10,
    ensures
        c == digit_char(d as nat),
{
    if d == 0 {
        '0'
    } else if d == 1 {
        '1'
    } else if d == 2 {
        '2'
    } else if d == 3 {
        '3'
    } else if d == 4 {
        '4'
    } else if d == 5 {
        '5'
    } else if d == 6 {
        '6'
    } else if d == 7 {
        '7'
    } else if d == 8 {
        '8'
    } else {
        '9'
    }
}

/// Appends the decimal numeral of `n` to `s`.
pub fn push_decimal(s: &mut String, n: usize)
    ensures
        final(s)@ == old(s)@ + decimal(n as nat),
    decreases n,
{
    if n < 10 {
        push_char(s, digit(n));
        assert(old(s)@.push(digit_char(n as nat)) =~= old(s)@ + decimal(n as nat));
    } else {
        push_decimal(s, n / 10);
        push_char(s, digit(n % 10));
        assert(s@ =~= old(s)@ + decimal(n as nat));
    }
}

/// The value of a numeral made of ASCII digits.
pub open spec fn digits_value(s: Seq<char>) -> nat
    decreases s.len(),
{
    if s.len() == 0 {
        0
    } else {
        digits_value(s.drop_last()) * 10 + (s.last() as nat - '0' as nat) as nat
    }
}

/// An ASCII decimal digit.
pub open spec fn is_ascii_digit(c: char) -> bool {
    '0' <= c <= '9'
}

/// Every character of `s` is an ASCII decimal digit.
pub open spec fn all_ascii_digits(s: Seq<char>) -> bool {
    forall|i: int| 0 <= i < s.len() ==> is_ascii_digit(#[trigger] s[i])
}

/// A longer numeral is worth at least as much as its prefixes.
pub proof fn lemma_digits_value_grows(s: Seq<char>, i: int)
    requires
        0 <= i <= s.len(),
    ensures
        digits_value(s.take(i)) <= digits_value(s),
    decreases s.len() - i,
{
    if i < s.len() {
        lemma_digits_value_grows(s, i + 1);
        assert(s.take(i + 1).drop_last() =~= s.take(i));
    } else {
        assert(s.take(i) =~= s);
    }
}

/// Whether every character of `s` is an ASCII decimal digit.
pub fn is_ascii_numeral(s: &str) -> (r: bool)
    ensures
        r == all_ascii_digits(s@),
{
    let n = s.unicode_len();
    for i in 0..n
        invariant
            n == s@.len(),
            forall|j: int| 0 <= j < i ==> is_ascii_digit(#[trigger] s@[j]),
    {
        let c = s.get_char(i);
        if !('0' <= c && c <= '9') {
            assert(!is_ascii_digit(s@[i as int]));
            return false;
        }
    }
    true
}

/// The value of a numeral of ASCII digits, as `str::parse::<usize>` reads
/// it: `None` when it does not fit in a `usize`.
pub fn parse_numeral(s: &str) -> (r: Option<usize>)
    requires
        all_ascii_digits(s@),
    ensures
        r == (if digits_value(s@) <= usize::MAX { Some(digits_value(s@) as usize) } else { None::<usize> }),
{
    let n = s.unicode_len();
    let mut v: usize = 0;
    for i in 0..n
        invariant
            n == s@.len(),
            all_ascii_digits(s@),
            v == digits_value(s@.take(i as int)),
    {
        let c = s.get_char(i);
        assert(is_ascii_digit(s@[i as int]));
        let d = (c as u32 - '0' as u32) as usize;
        proof {
            assert(s@.take(i + 1).drop_last() =~= s@.take(i as int));
            assert(s@.take(i + 1).last() == c);
            assert(digits_value(s@.take(i + 1)) == digits_value(s@.take(i as int)) * 10 + d);
        }
        match v.checked_mul(10) {
            Some(w) => match w.checked_add(d) {
                Some(x) => v = x,
                None => {
                    proof {
                        lemma_digits_value_grows(s@, i + 1);
                    }
                    return None;
                },
            },
            None => {
                proof {
                    lemma_digits_value_grows(s@, i + 1);
                }
                return None;
            },
        }
    }
    assert(s@.take(n as int) =~= s@);
    Some(v)
}

/// Every character of `s` is a number character.
pub open spec fn all_numeric(s: Seq<char>) -> bool {
    forall|i: int| 0 <= i < s.len() ==> numeric(#[trigger] s[i])
}

/// Whether every character of `s` is a number character.
pub fn is_numeric_text(s: &str) -> (r: bool)
    ensures
        r == all_numeric(s@),
{
    let n = s.unicode_len();
    for i in 0..n
        invariant
            n == s@.len(),
            forall|j: int| 0 <= j < i ==> numeric(#[trigger] s@[j]),
    {
        let c = s.get_char(i);
        if !is_numeric_char(c) {
            return false;
        }
    }
    true
}

} // verus!
