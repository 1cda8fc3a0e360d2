//! Character-level text utilities: string equality, ASCII case folding,
//! and decimal integer parsing and formatting, specified over `Seq<char>`.

use vstd::prelude::*;

verus! {

/// Appends one character to a string.
///
/// Relies on std's `String::push`: the character is appended at the end.
#[verifier::external_body]
pub(crate) fn push_char(s: &mut String, c: char)
    ensures
        final(s)@ == old(s)@.push(c),
{
    s.push(c);
}

/// Compares two string slices character by character.
pub fn str_eq(a: &str, b: &str) -> (r: bool)
    ensures
        r == (a@ == b@),
{
    let n = a.unicode_len();
    if n != b.unicode_len() {
        return false;
    }
    let mut i: usize = 0;
    while i < n
        invariant
            n == a@.len(),
            n == b@.len(),
            i <= n,
            forall|j: int| 0 <= j < i ==> a@[j] == b@[j],
        decreases n - i,
    {
        if a.get_char(i) != b.get_char(i) {
            return false;
        }
        i += 1;
    }
    proof {
        assert(a@ =~= b@);
    }
    true
}

/// The ASCII-lowercase image of one character; other characters are unchanged.
pub open spec fn lower_char(c: char) -> char {
    if 'A' <= c && c <= 'Z' {
        (c as int + 32) as char
    } else {
        c
    }
}

/// The ASCII-lowercase image of a character sequence.
pub open spec fn lower_seq(s: Seq<char>) -> Seq<char>
    decreases s.len(),
{
    if s.len() == 0 {
        Seq::empty()
    } else {
        lower_seq(s.drop_last()).push(lower_char(s.last()))
    }
}

/// Folds a string to ASCII lowercase, one character at a time.
pub fn ascii_lower(s: &str) -> (r: String)
    ensures
        r@ == lower_seq(s@),
{
    let n = s.unicode_len();
    let mut out = String::new();
    let mut i: usize = 0;
    while i < n
        invariant
            n == s@.len(),
            i <= n,
            out@ == lower_seq(s@.take(i as int)),
        decreases n - i,
    {
        let c = s.get_char(i);
        let u = c as u32;
        let lc: char = if 65 <= u && u <= 90 {
            ((c as u8) + 32) as char
        } else {
            c
        };
        proof {
            assert(lc == lower_char(s@[i as int]));
            assert(s@.take(i + 1).drop_last() =~= s@.take(i as int));
            assert(s@.take(i + 1).last() == s@[i as int]);
        }
        push_char(&mut out, lc);
        i += 1;
    }
    proof {
        assert(s@.take(n as int) =~= s@);
    }
    out
}

/// The views of a sequence of strings.
pub open spec fn seq_views(q: Seq<String>) -> Seq<Seq<char>> {
    Seq::new(q.len(), |i: int| q[i]@)
}

/// Whether the second sequence occurs at the front of the first.
pub open spec fn starts_with_seq(s: Seq<char>, d: Seq<char>) -> bool {
    s.len() >= d.len() && s.take(d.len() as int) == d
}

/// Whether a string slice starts with another.
pub fn str_starts_with(s: &str, d: &str) -> (r: bool)
    ensures
        r == starts_with_seq(s@, d@),
{
    let n = s.unicode_len();
    let m = d.unicode_len();
    if n < m {
        return false;
    }
    let mut i: usize = 0;
    while i < m
        invariant
            n == s@.len(),
            m == d@.len(),
            m <= n,
            i <= m,
            forall|j: int| 0 <= j < i ==> s@[j] == d@[j],
        decreases m - i,
    {
        if s.get_char(i) != d.get_char(i) {
            assert(s@.take(m as int)[i as int] != d@[i as int]);
            return false;
        }
        i += 1;
    }
    proof {
        assert(s@.take(m as int) =~= d@);
    }
    true
}

/// The pieces of a sequence cut at every occurrence of a nonempty delimiter,
/// leftmost occurrences first; empty pieces are kept.
pub open spec fn split_seq(s: Seq<char>, d: Seq<char>) -> Seq<Seq<char>>
    decreases s.len(),
{
    if d.len() == 0 || s.len() == 0 {
        seq![s]
    } else if starts_with_seq(s, d) {
        seq![Seq::<char>::empty()] + split_seq(s.skip(d.len() as int), d)
    } else {
        let rest = split_seq(s.skip(1), d);
        seq![seq![s[0]] + rest[0]] + rest.skip(1)
    }
}

/// A split always yields at least one piece.
pub proof fn lemma_split_seq_nonempty(s: Seq<char>, d: Seq<char>)
    ensures
        split_seq(s, d).len() >= 1,
    decreases s.len(),
{
    if d.len() == 0 || s.len() == 0 {
    } else if starts_with_seq(s, d) {
    } else {
        lemma_split_seq_nonempty(s.skip(1), d);
    }
}

/// Cuts a string at every occurrence of a nonempty delimiter; empty pieces
/// are kept.
pub fn split_all(s: &str, delim: &str) -> (r: Vec<String>)
    requires
        delim@.len() >= 1,
    ensures
        seq_views(r@) == split_seq(s@, delim@),
    decreases s@.len(),
{
    let n = s.unicode_len();
    let m = delim.unicode_len();
    if n == 0 {
        let mut one: Vec<String> = Vec::new();
        one.push(String::new());
        proof {
            assert(seq_views(one@) =~~= split_seq(s@, delim@));
        }
        one
    } else if str_starts_with(s, delim) {
        let rest = s.substring_char(m, n);
        let mut pieces = split_all(rest, delim);
        pieces.insert(0, String::new());
        proof {
            assert(rest@ == s@.skip(m as int));
            assert(seq_views(pieces@) =~~= split_seq(s@, delim@));
        }
        pieces
    } else {
        let c0 = s.get_char(0);
        let rest = s.substring_char(1, n);
        let mut pieces = split_all(rest, delim);
        proof {
            assert(rest@ == s@.skip(1));
            lemma_split_seq_nonempty(rest@, delim@);
        }
        let head = pieces.remove(0);
        let mut first = String::new();
        push_char(&mut first, c0);
        first.append(head.as_str());
        pieces.insert(0, first);
        proof {
            assert(first@ =~= seq![s@[0]] + split_seq(s@.skip(1), delim@)[0]);
            assert(seq_views(pieces@) =~~= split_seq(s@, delim@));
        }
        pieces
    }
}

/// The input with every empty piece at the front and at the back removed;
/// interior empty pieces are kept.
pub open spec fn trim_empty_edges(q: Seq<Seq<char>>) -> Seq<Seq<char>>
    decreases q.len(),
{
    if q.len() > 0 && q[0].len() == 0 {
        trim_empty_edges(q.skip(1))
    } else if q.len() > 0 && q.last().len() == 0 {
        trim_empty_edges(q.drop_last())
    } else {
        q
    }
}

/// Removes empty strings from the front and the back of a piece list.
pub fn trim_empty_strings(pieces: &mut Vec<String>)
    ensures
        seq_views(final(pieces)@) == trim_empty_edges(seq_views(old(pieces)@)),
{
    while pieces.len() > 0 && pieces[0].as_str().unicode_len() == 0
        invariant
            trim_empty_edges(seq_views(pieces@)) == trim_empty_edges(seq_views(old(pieces)@)),
        decreases pieces.len(),
    {
        let ghost before = seq_views(pieces@);
        pieces.remove(0);
        proof {
            assert(seq_views(pieces@) =~= before.skip(1));
        }
    }
    while pieces.len() > 0 && pieces[pieces.len() - 1].as_str().unicode_len() == 0
        invariant
            trim_empty_edges(seq_views(pieces@)) == trim_empty_edges(seq_views(old(pieces)@)),
            pieces.len() == 0 || pieces[0]@.len() > 0,
        decreases pieces.len(),
    {
        let ghost before = seq_views(pieces@);
        pieces.pop();
        proof {
            assert(seq_views(pieces@) =~= before.drop_last());
        }
    }
    proof {
        assert(trim_empty_edges(seq_views(pieces@)) == seq_views(pieces@));
    }
}

/// The pieces joined with one trailing delimiter after each piece.
pub open spec fn concat_delim(tags: Seq<Seq<char>>, delim: char) -> Seq<char>
    decreases tags.len(),
{
    if tags.len() == 0 {
        Seq::empty()
    } else {
        concat_delim(tags.drop_last(), delim) + tags.last() + seq![delim]
    }
}

/// Joins the pieces, writing the delimiter after every piece.
pub fn join_with_delim(tags: &[String], delim: char) -> (r: String)
    ensures
        r@ == concat_delim(seq_views(tags@), delim),
{
    let n = tags.len();
    let mut out = String::new();
    let mut i: usize = 0;
    while i < n
        invariant
            n == tags@.len(),
            i <= n,
            out@ == concat_delim(seq_views(tags@).take(i as int), delim),
        decreases n - i,
    {
        out.append(tags[i].as_str());
        push_char(&mut out, delim);
        proof {
            assert(seq_views(tags@).take(i + 1).drop_last() =~= seq_views(tags@).take(i as int));
            assert(out@ =~= concat_delim(seq_views(tags@).take(i + 1), delim));
        }
        i += 1;
    }
    proof {
        assert(seq_views(tags@).take(n as int) =~= seq_views(tags@));
    }
    out
}

/// Whether a character is a decimal digit.
pub open spec fn is_digit(c: char) -> bool {
    '0' <= c && c <= '9'
}

/// The numeric value of a decimal digit character.
pub open spec fn digit_val(c: char) -> nat
    recommends
        is_digit(c),
{
    (c as int - 48) as nat
}

/// Whether every character of a sequence is a decimal digit.
pub open spec fn all_digits(s: Seq<char>) -> bool {
    forall|i: int| 0 <= i < s.len() ==> is_digit(#[trigger] s[i])
}

/// The value of a sequence of decimal digit characters, most significant first.
pub open spec fn digits_value(s: Seq<char>) -> nat
    decreases s.len(),
{
    if s.len() == 0 {
        0
    } else {
        digits_value(s.drop_last()) * 10 + digit_val(s.last())
    }
}

/// A longer digit string never denotes a smaller value.
proof fn lemma_digits_value_mono(s: Seq<char>, i: int)
    requires
        0 <= i <= s.len(),
    ensures
        digits_value(s) >= digits_value(s.take(i)),
    decreases s.len() - i,
{
    if i == s.len() {
        assert(s.take(i) =~= s);
    } else {
        lemma_digits_value_mono(s, i + 1);
        assert(s.take(i + 1).drop_last() =~= s.take(i));
        assert(digits_value(s.take(i + 1)) == digits_value(s.take(i)) * 10 + digit_val(
            s.take(i + 1).last(),
        ));
    }
}

/// Parses a nonempty all-digit string into a `u64`; rejects anything else,
/// including values that do not fit.
pub fn parse_digits_u64(s: &str) -> (r: Option<u64>)
    ensures
        match r {
            Some(v) => s@.len() > 0 && all_digits(s@) && v == digits_value(s@),
            None => s@.len() == 0 || !all_digits(s@) || digits_value(s@) > u64::MAX,
        },
{
    let n = s.unicode_len();
    if n == 0 {
        return None;
    }
    let mut acc: u64 = 0;
    let mut i: usize = 0;
    while i < n
        invariant
            n == s@.len(),
            0 < n,
            i <= n,
            all_digits(s@.take(i as int)),
            acc == digits_value(s@.take(i as int)),
        decreases n - i,
    {
        let c = s.get_char(i);
        let u = c as u32;
        if u < 48 || u > 57 {
            assert(!is_digit(s@[i as int]));
            return None;
        }
        let d = (u - 48) as u64;
        proof {
            assert(s@.take(i + 1).drop_last() =~= s@.take(i as int));
            assert(s@.take(i + 1).last() == s@[i as int]);
            assert(digit_val(s@[i as int]) == d);
        }
        let step = match acc.checked_mul(10) {
            Some(m) => m.checked_add(d),
            None => None,
        };
        match step {
            Some(v) => {
                acc = v;
            },
            None => {
                proof {
                    assert(digits_value(s@.take(i + 1)) == acc * 10 + d);
                    assert(acc * 10 + d > u64::MAX);
                    lemma_digits_value_mono(s@, i + 1);
                }
                return None;
            },
        }
        i += 1;
    }
    proof {
        assert(s@.take(n as int) =~= s@);
    }
    Some(acc)
}

/// The input with one leading `'+'`, if any, removed.
pub open spec fn strip_plus(s: Seq<char>) -> Seq<char> {
    if s.len() > 0 && s[0] == '+' {
        s.skip(1)
    } else {
        s
    }
}

/// Whether a string is an unsigned decimal numeral: an optional `'+'`
/// followed by at least one digit.
pub open spec fn is_unsigned_text(s: Seq<char>) -> bool {
    strip_plus(s).len() > 0 && all_digits(strip_plus(s))
}

/// The value denoted by an unsigned decimal numeral.
pub open spec fn unsigned_text_value(s: Seq<char>) -> nat {
    digits_value(strip_plus(s))
}

/// Parses an unsigned decimal numeral into a `u64`.
pub fn parse_u64_text(s: &str) -> (r: Option<u64>)
    ensures
        match r {
            Some(v) => is_unsigned_text(s@) && unsigned_text_value(s@) <= u64::MAX && v
                == unsigned_text_value(s@),
            None => !is_unsigned_text(s@) || unsigned_text_value(s@) > u64::MAX,
        },
{
    let n = s.unicode_len();
    if n > 0 && s.get_char(0) == '+' {
        let rest = s.substring_char(1, n);
        assert(rest@ == strip_plus(s@));
        parse_digits_u64(rest)
    } else {
        parse_digits_u64(s)
    }
}

/// Parses an unsigned decimal numeral into a `u32`.
pub fn parse_u32_text(s: &str) -> (r: Option<u32>)
    ensures
        match r {
            Some(v) => is_unsigned_text(s@) && unsigned_text_value(s@) <= u32::MAX && v
                == unsigned_text_value(s@),
            None => !is_unsigned_text(s@) || unsigned_text_value(s@) > u32::MAX,
        },
{
    match parse_u64_text(s) {
        Some(v) => if v <= u32::MAX as u64 {
            Some(v as u32)
        } else {
            None
        },
        None => None,
    }
}

/// Parses an unsigned decimal numeral into a `u8`.
pub fn parse_u8_text(s: &str) -> (r: Option<u8>)
    ensures
        match r {
            Some(v) => is_unsigned_text(s@) && unsigned_text_value(s@) <= u8::MAX && v
                == unsigned_text_value(s@),
            None => !is_unsigned_text(s@) || unsigned_text_value(s@) > u8::MAX,
        },
{
    match parse_u64_text(s) {
        Some(v) => if v <= u8::MAX as u64 {
            Some(v as u8)
        } else {
            None
        },
        None => None,
    }
}

/// Whether a string is a signed decimal numeral: an optional `'+'` or `'-'`
/// followed by at least one digit.
pub open spec fn is_signed_text(s: Seq<char>) -> bool {
    if s.len() > 0 && (s[0] == '+' || s[0] == '-') {
        s.len() > 1 && all_digits(s.skip(1))
    } else {
        s.len() > 0 && all_digits(s)
    }
}

/// The value denoted by a signed decimal numeral.
pub open spec fn signed_text_value(s: Seq<char>) -> int {
    if s.len() > 0 && s[0] == '-' {
        -(digits_value(s.skip(1)) as int)
    } else {
        unsigned_text_value(s) as int
    }
}

/// Parses a signed decimal numeral into an `i64`.
pub fn parse_i64_text(s: &str) -> (r: Option<i64>)
    ensures
        match r {
            Some(v) => is_signed_text(s@) && i64::MIN <= signed_text_value(s@) <= i64::MAX && v
                == signed_text_value(s@),
            None => !is_signed_text(s@) || signed_text_value(s@) < i64::MIN || signed_text_value(
                s@,
            ) > i64::MAX,
        },
{
    let n = s.unicode_len();
    if n > 0 && s.get_char(0) == '-' {
        let rest = s.substring_char(1, n);
        assert(rest@ == s@.skip(1));
        match parse_digits_u64(rest) {
            Some(m) => if m <= i64::MAX as u64 {
                Some(-(m as i64))
            } else if m == i64::MAX as u64 + 1 {
                Some(i64::MIN)
            } else {
                None
            },
            None => None,
        }
    } else {
        match parse_u64_text(s) {
            Some(v) => if v <= i64::MAX as u64 {
                assert(signed_text_value(s@) == unsigned_text_value(s@));
                Some(v as i64)
            } else {
                None
            },
            None => None,
        }
    }
}

/// How many times a character occurs in a sequence.
pub open spec fn count_char(s: Seq<char>, c: char) -> nat
    decreases s.len(),
{
    if s.len() == 0 {
        0
    } else {
        count_char(s.drop_last(), c) + (if s.last() == c {
            1nat
        } else {
            0nat
        })
    }
}

/// Whether an unsigned string is digits with at most one dot and at least
/// one digit.
pub open spec fn spec_decimal_body(t: Seq<char>) -> bool {
    &&& t.len() > 0
    &&& (forall|i: int| 0 <= i < t.len() ==> is_digit(#[trigger] t[i]) || t[i] == '.')
    &&& count_char(t, '.') <= 1
    &&& (exists|i: int| 0 <= i < t.len() && is_digit(#[trigger] t[i]))
}

/// Whether a string is a plain decimal number with an optional fractional
/// part: an optional sign, then digits and at most one dot, with at least
/// one digit.
pub open spec fn is_decimal_fraction_text(s: Seq<char>) -> bool {
    if s.len() > 0 && (s[0] == '+' || s[0] == '-') {
        spec_decimal_body(s.skip(1))
    } else {
        spec_decimal_body(s)
    }
}

/// Checks whether an unsigned string is digits with at most one dot and at
/// least one digit.
fn decimal_body_ok(s: &str) -> (r: bool)
    ensures
        r == spec_decimal_body(s@),
{
    let n = s.unicode_len();
    if n == 0 {
        return false;
    }
    let mut dots: usize = 0;
    let mut saw_digit = false;
    let mut i: usize = 0;
    while i < n
        invariant
            n == s@.len(),
            i <= n,
            dots <= i,
            forall|j: int| 0 <= j < i ==> is_digit(#[trigger] s@[j]) || s@[j] == '.',
            dots == count_char(s@.take(i as int), '.'),
            saw_digit == (exists|j: int| 0 <= j < i && is_digit(#[trigger] s@[j])),
        decreases n - i,
    {
        let c = s.get_char(i);
        let u = c as u32;
        proof {
            assert(s@.take(i + 1).drop_last() =~= s@.take(i as int));
            assert(s@.take(i + 1).last() == s@[i as int]);
        }
        if 48 <= u && u <= 57 {
            saw_digit = true;
        } else if c == '.' {
            dots += 1;
        } else {
            return false;
        }
        i += 1;
    }
    proof {
        assert(s@.take(n as int) =~= s@);
    }
    saw_digit && dots <= 1
}

/// Checks whether a string has the plain-decimal shape, sign and one
/// optional dot included.
pub fn is_decimal_fraction(s: &str) -> (r: bool)
    ensures
        r == is_decimal_fraction_text(s@),
{
    let n = s.unicode_len();
    if n > 0 && (s.get_char(0) == '+' || s.get_char(0) == '-') {
        let rest = s.substring_char(1, n);
        assert(rest@ == s@.skip(1));
        decimal_body_ok(rest)
    } else {
        decimal_body_ok(s)
    }
}

/// The character for one decimal digit value.
pub open spec fn dec_digit_char(d: nat) -> char
    recommends
        d < 10,
{
    (d + 48) as char
}

/// The shortest decimal rendering of a natural number, most significant
/// digit first.
pub open spec fn dec_str(n: nat) -> Seq<char>
    decreases n,
{
    if n < 10 {
        seq![dec_digit_char(n)]
    } else {
        dec_str(n / 10).push(dec_digit_char(n % 10))
    }
}

/// Every piece of a concatenation of digit strings is a digit.
pub proof fn lemma_all_digits_concat(a: Seq<char>, b: Seq<char>)
    requires
        all_digits(a),
        all_digits(b),
    ensures
        all_digits(a + b),
{
    assert forall|i: int| 0 <= i < (a + b).len() implies is_digit(#[trigger] (a + b)[i]) by {
        if i < a.len() {
            assert((a + b)[i] == a[i]);
        } else {
            assert((a + b)[i] == b[i - a.len()]);
        }
    }
}

/// A decimal rendering consists of digits alone, with one digit per place.
pub proof fn lemma_dec_str_shape(n: nat)
    ensures
        all_digits(dec_str(n)),
        n < 10 ==> dec_str(n).len() == 1,
        10 <= n < 100 ==> dec_str(n).len() == 2,
        100 <= n < 1000 ==> dec_str(n).len() == 3,
        1000 <= n < 10000 ==> dec_str(n).len() == 4,
    decreases n,
{
    if n < 10 {
        assert(is_digit(dec_digit_char(n)));
        assert(all_digits(dec_str(n)));
    } else {
        lemma_dec_str_shape(n / 10);
        let prefix = dec_str(n / 10);
        assert(is_digit(dec_digit_char(n % 10)));
        assert forall|i: int| 0 <= i < dec_str(n).len() implies is_digit(
            #[trigger] dec_str(n)[i],
        ) by {
            if i < prefix.len() {
                assert(dec_str(n)[i] == prefix[i]);
            } else {
                assert(dec_str(n)[i] == dec_digit_char(n % 10));
            }
        }
    }
}

/// A two-place padded rendering of a value below one hundred is exactly two
/// digits.
pub proof fn lemma_dec2_str_shape(n: nat)
    requires
        n < 100,
    ensures
        all_digits(dec2_str(n)),
        dec2_str(n).len() == 2,
{
    lemma_dec_str_shape(n);
    if n < 10 {
        reveal_strlit("0");
        assert(is_digit('0'));
        assert(all_digits(seq!['0']));
        lemma_all_digits_concat(seq!['0'], dec_str(n));
    }
}

/// A four-place padded rendering of a value below ten thousand is exactly
/// four digits.
pub proof fn lemma_dec4_str_shape(n: nat)
    requires
        n < 10000,
    ensures
        all_digits(dec4_str(n)),
        dec4_str(n).len() == 4,
{
    lemma_dec_str_shape(n);
    assert(is_digit('0'));
    if n < 10 {
        assert(all_digits(seq!['0', '0', '0']));
        lemma_all_digits_concat(seq!['0', '0', '0'], dec_str(n));
    } else if n < 100 {
        assert(all_digits(seq!['0', '0']));
        lemma_all_digits_concat(seq!['0', '0'], dec_str(n));
    } else if n < 1000 {
        assert(all_digits(seq!['0']));
        lemma_all_digits_concat(seq!['0'], dec_str(n));
    }
}

/// Renders a `u64` in decimal.
pub fn u64_to_string(n: u64) -> (r: String)
    ensures
        r@ == dec_str(n as nat),
    decreases n,
{
    if n < 10 {
        let mut s = String::new();
        push_char(&mut s, ((n as u8) + 48) as char);
        s
    } else {
        let mut s = u64_to_string(n / 10);
        push_char(&mut s, (((n % 10) as u8) + 48) as char);
        s
    }
}

/// Renders a `u32` in decimal.
pub fn u32_to_string(n: u32) -> (r: String)
    ensures
        r@ == dec_str(n as nat),
{
    u64_to_string(n as u64)
}

/// Renders a natural number in decimal, left-padded with zeros to at least
/// two digits.
pub open spec fn dec2_str(n: nat) -> Seq<char> {
    if n < 10 {
        seq!['0'] + dec_str(n)
    } else {
        dec_str(n)
    }
}

/// Renders a `u8` in decimal, left-padded with zeros to two digits.
pub fn u8_to_padded2_string(n: u8) -> (r: String)
    ensures
        r@ == dec2_str(n as nat),
{
    let mut s = String::new();
    if n < 10 {
        push_char(&mut s, '0');
    }
    let d = u64_to_string(n as u64);
    s.append(d.as_str());
    proof {
        if n < 10 {
            assert(s@ =~= dec2_str(n as nat));
        } else {
            assert(s@ =~= dec_str(n as nat));
        }
    }
    s
}

/// Renders a natural number in decimal, left-padded with zeros to at least
/// four digits.
pub open spec fn dec4_str(n: nat) -> Seq<char> {
    if n < 10 {
        seq!['0', '0', '0'] + dec_str(n)
    } else if n < 100 {
        seq!['0', '0'] + dec_str(n)
    } else if n < 1000 {
        seq!['0'] + dec_str(n)
    } else {
        dec_str(n)
    }
}

/// Renders a `u32` in decimal, left-padded with zeros to four digits.
pub fn u32_to_padded4_string(n: u32) -> (r: String)
    ensures
        r@ == dec4_str(n as nat),
{
    let mut s = String::new();
    if n < 10 {
        push_char(&mut s, '0');
        push_char(&mut s, '0');
        push_char(&mut s, '0');
    } else if n < 100 {
        push_char(&mut s, '0');
        push_char(&mut s, '0');
    } else if n < 1000 {
        push_char(&mut s, '0');
    }
    let d = u64_to_string(n as u64);
    s.append(d.as_str());
    proof {
        assert(s@ =~= dec4_str(n as nat));
    }
    s
}

} // verus!
