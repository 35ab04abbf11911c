//! Character-level building blocks for SQL text: substitution of single
//! characters, decimal rendering of integers, joining of fragments, and the
//! few conversions that are left to the standard library.

use vstd::prelude::*;

verus! {

/// `String::push` appends exactly one character.
pub assume_specification[ String::push ](s: &mut String, c: char)
    ensures
        final(s)@ == old(s)@.push(c),
;

/// Two string slices compare equal exactly when they hold the same characters.
pub assume_specification[ <str as PartialEq>::eq ](a: &str, b: &str) -> (r: bool)
    ensures
        r == (a@ == b@),
;

/// What `str::to_lowercase` makes of a text that holds characters outside
/// ASCII: its Unicode lower-case form.
pub uninterp spec fn unicode_lowercase(s: Seq<char>) -> Seq<char>;

/// What `str::to_uppercase` makes of a text that holds characters outside
/// ASCII: its Unicode upper-case form.
pub uninterp spec fn unicode_uppercase(s: Seq<char>) -> Seq<char>;

/// The lower-case form of an ASCII letter; any other character is itself.
pub open spec fn ascii_lower(c: char) -> char {
    if 'A' <= c <= 'Z' {
        ((c as u32) + 32) as char
    } else {
        c
    }
}

/// The upper-case form of an ASCII letter; any other character is itself.
pub open spec fn ascii_upper(c: char) -> char {
    if 'a' <= c <= 'z' {
        ((c as u32) - 32) as char
    } else {
        c
    }
}

/// The lower-case form of a text: letter by letter for ASCII text, and the
/// Unicode lower-case form for any other.
pub open spec fn lowercase_of(s: Seq<char>) -> Seq<char> {
    if vstd::utf8::is_ascii_chars(s) {
        s.map_values(|c: char| ascii_lower(c))
    } else {
        unicode_lowercase(s)
    }
}

/// The upper-case form of a text: letter by letter for ASCII text, and the
/// Unicode upper-case form for any other.
pub open spec fn uppercase_of(s: Seq<char>) -> Seq<char> {
    if vstd::utf8::is_ascii_chars(s) {
        s.map_values(|c: char| ascii_upper(c))
    } else {
        unicode_uppercase(s)
    }
}

/// What `String::from_utf8_lossy` makes of a byte string that is not
/// well-formed UTF-8: the text with each malformed sequence replaced by
/// U+FFFD.
pub uninterp spec fn utf8_repaired(bytes: Seq<u8>) -> Seq<char>;

/// The text that a byte string is read as: what it encodes where it is
/// well-formed UTF-8, and the repaired text where it is not.
pub open spec fn utf8_lossy(bytes: Seq<u8>) -> Seq<char> {
    if vstd::utf8::valid_utf8(bytes) {
        vstd::utf8::decode_utf8(bytes)
    } else {
        utf8_repaired(bytes)
    }
}

/// Calls `str::to_lowercase`. On ASCII text the result is the text with
/// the letters `A` to `Z` replaced by `a` to `z`; on other text it is the
/// Unicode lower-case form, which depends on the text alone.
#[verifier::external_body]
pub(crate) fn lowercase(s: &str) -> (r: String)
    ensures
        r@ == lowercase_of(s@),
        !vstd::utf8::is_ascii_chars(s@) ==> r@ == unicode_lowercase(s@),
{
    s.to_lowercase()
}

/// Calls `str::to_uppercase`. On ASCII text the result is the text with
/// the letters `a` to `z` replaced by `A` to `Z`; on other text it is the
/// Unicode upper-case form, which depends on the text alone.
#[verifier::external_body]
pub(crate) fn uppercase(s: &str) -> (r: String)
    ensures
        r@ == uppercase_of(s@),
        !vstd::utf8::is_ascii_chars(s@) ==> r@ == unicode_uppercase(s@),
{
    s.to_uppercase()
}

/// Calls `String::from_utf8_lossy`. Well-formed UTF-8 decodes to the text it
/// encodes; on other input the result is only named.
#[verifier::external_body]
pub(crate) fn lossy_text(bytes: &[u8]) -> (r: String)
    ensures
        r@ == utf8_lossy(bytes@),
        !vstd::utf8::valid_utf8(bytes@) ==> r@ == utf8_repaired(bytes@),
{
    String::from_utf8_lossy(bytes).into_owned()
}

/// Whether two texts hold the same characters.
pub fn same_text(a: &str, b: &str) -> (r: bool)
    ensures
        r == (a@ == b@),
{
    a.eq(b)
}

/// The text `s` with every occurrence of `target` replaced by `with`.
pub open spec fn replace_char(s: Seq<char>, target: char, with: Seq<char>) -> Seq<char>
    decreases s.len(),
{
    if s.len() == 0 {
        Seq::empty()
    } else {
        replace_char(s.drop_last(), target, with) + (if s.last() == target {
            with
        } else {
            seq![s.last()]
        })
    }
}

/// Appends to `out` the text `s` with every `target` replaced by `with`.
pub fn push_replaced(out: &mut String, s: &str, target: char, with: &str)
    ensures
        final(out)@ == old(out)@ + replace_char(s@, target, with@),
{
    let ghost start = out@;
    for c in it: s.chars()
        invariant
            it.seq() == s@,
            out@ == start + replace_char(s@.take(it.index()), target, with@),
    {
        proof {
            let k = it.index();
            assert(s@.take(k + 1).drop_last() =~= s@.take(k));
        }
        if c == target {
            out.append(with);
        } else {
            out.push(c);
        }
    }
    proof {
        assert(s@.take(s@.len() as int) =~= s@);
    }
}

/// The text `s` with every occurrence of `target` replaced by `with`.
pub fn replace_char_in(s: &str, target: char, with: &str) -> (out: String)
    ensures
        out@ == replace_char(s@, target, with@),
{
    let mut out = String::new();
    push_replaced(&mut out, s, target, with);
    out
}

/// The character that writes the digit `d`, for `0 <= d <= 9`.
pub open spec fn digit_char(d: int) -> char {
    if d == 0 {
        '0'
    } else if d == 1 {
        '1'
    } else if d == 2 {
        '2'
    } else if d == 3 {
        '3'
    } else if d == 4 {
        '4'
    } else if d == 5 {
        '5'
    } else if d == 6 {
        '6'
    } else if d == 7 {
        '7'
    } else if d == 8 {
        '8'
    } else {
        '9'
    }
}

/// The decimal numeral of `n`, without sign and without leading zeros.
pub open spec fn decimal(n: nat) -> Seq<char>
    decreases n,
{
    if n < 10 {
        seq![digit_char(n as int)]
    } else {
        decimal(n / 10).push(digit_char((n % 10) as int))
    }
}

/// The decimal numeral of `i`, with a leading `-` for negative numbers.
pub open spec fn signed_decimal(i: int) -> Seq<char> {
    if i < 0 {
        seq!['-'] + decimal((-i) as nat)
    } else {
        decimal(i as nat)
    }
}

/// `count` zeros.
pub open spec fn zeros(count: nat) -> Seq<char> {
    Seq::new(count, |i: int| '0')
}

/// The decimal numeral of `n`, filled with zeros on the left up to `width`
/// characters. A numeral that is already that long is left as it is.
pub open spec fn zero_padded(n: nat, width: nat) -> Seq<char> {
    let digits = decimal(n);
    if digits.len() >= width {
        digits
    } else {
        zeros((width - digits.len()) as nat) + digits
    }
}

/// `HH:MM:SS`.
pub open spec fn clock_text(hour: nat, minute: nat, second: nat) -> Seq<char> {
    zero_padded(hour, 2) + seq![':'] + zero_padded(minute, 2) + seq![':'] + zero_padded(second, 2)
}

/// `YYYY-MM-DD`.
pub open spec fn calendar_text(year: nat, month: nat, day: nat) -> Seq<char> {
    zero_padded(year, 4) + seq!['-'] + zero_padded(month, 2) + seq!['-'] + zero_padded(day, 2)
}

/// `YYYY-MM-DD HH:MM:SS`.
pub open spec fn timestamp_text(
    year: nat,
    month: nat,
    day: nat,
    hour: nat,
    minute: nat,
    second: nat,
) -> Seq<char> {
    calendar_text(year, month, day) + seq![' '] + clock_text(hour, minute, second)
}

fn digit_of(d: u64) -> (c: char)
    requires
        d < 10,
    ensures
        c == digit_char(d as int),
{
    if d == 0 {
        '0'
    } else if d == 1 {
        '1'
    } else if d == 2 {
        '2'
    } else if d == 3 {
        '3'
    } else if d == 4 {
        '4'
    } else if d == 5 {
        '5'
    } else if d == 6 {
        '6'
    } else if d == 7 {
        '7'
    } else if d == 8 {
        '8'
    } else {
        '9'
    }
}

/// The digits of `n`, least significant first.
fn digits_reversed(n: u64) -> (v: Vec<char>)
    ensures
        v@ == decimal(n as nat).reverse(),
        v@.len() >= 1,
{
    let mut v: Vec<char> = Vec::new();
    let mut rest: u64 = n;
    while rest >= 10
        invariant
            decimal(n as nat) =~= decimal(rest as nat) + v@.reverse(),
        decreases rest,
    {
        let d = digit_of(rest % 10);
        proof {
            let r = rest as nat;
            assert(decimal(r) == decimal(r / 10).push(digit_char((r % 10) as int)));
            assert(v@.push(d).reverse() =~= seq![d] + v@.reverse());
        }
        v.push(d);
        rest = rest / 10;
    }
    let d = digit_of(rest);
    proof {
        assert(decimal(rest as nat) == seq![d]);
        assert(v@.push(d).reverse() =~= seq![d] + v@.reverse());
        assert(v@.push(d).reverse().reverse() =~= v@.push(d));
    }
    v.push(d);
    v
}

/// Appends the decimal numeral of `n`, zero-padded to `width` characters.
pub fn push_zero_padded(out: &mut String, n: u64, width: usize)
    ensures
        final(out)@ == old(out)@ + zero_padded(n as nat, width as nat),
{
    let ghost start = out@;
    let digits = digits_reversed(n);
    let mut pad: usize = 0;
    let len = digits.len();
    while pad + len < width
        invariant
            len == digits@.len(),
            pad + len <= width || pad == 0,
            out@ == start + zeros(pad as nat),
        decreases width - pad,
    {
        out.push('0');
        pad = pad + 1;
        proof {
            assert(zeros((pad - 1) as nat).push('0') =~= zeros(pad as nat));
        }
    }
    let mut i: usize = len;
    while i > 0
        invariant
            i <= len,
            len == digits@.len(),
            out@ == start + zeros(pad as nat) + digits@.reverse().take(len - i),
        decreases i,
    {
        i = i - 1;
        out.push(digits[i]);
        proof {
            let r = digits@.reverse();
            assert(r.take(len - i) =~= r.take(len - i - 1).push(digits@[i as int]));
        }
    }
    proof {
        let r = digits@.reverse();
        assert(r.take(len as int) =~= r);
        assert(r =~= decimal(n as nat));
        if len >= width {
            assert(zeros(pad as nat) =~= Seq::<char>::empty());
            assert(start + zeros(pad as nat) + r =~= start + zero_padded(n as nat, width as nat));
        } else {
            assert(start + zeros(pad as nat) + r =~= start + zero_padded(n as nat, width as nat));
        }
    }
}

/// Appends the decimal numeral of `n`.
pub fn push_decimal(out: &mut String, n: u64)
    ensures
        final(out)@ == old(out)@ + decimal(n as nat),
{
    push_zero_padded(out, n, 0);
}

/// The decimal numeral of `n`.
pub fn decimal_string(n: u64) -> (out: String)
    ensures
        out@ == decimal(n as nat),
{
    let mut out = String::new();
    push_decimal(&mut out, n);
    out
}

/// Appends the decimal numeral of `i`, with a leading `-` where it is negative.
pub fn push_signed_decimal(out: &mut String, i: i64)
    ensures
        final(out)@ == old(out)@ + signed_decimal(i as int),
{
    if i < 0 {
        out.push('-');
        let magnitude: u64 = if i == i64::MIN {
            9223372036854775808u64
        } else {
            (-i) as u64
        };
        push_decimal(out, magnitude);
        proof {
            assert(old(out)@.push('-') + decimal(magnitude as nat) =~= old(out)@ + (seq!['-']
                + decimal(magnitude as nat)));
        }
    } else {
        push_decimal(out, i as u64);
    }
}

/// The decimal numeral of `i`, with a leading `-` where it is negative.
pub fn signed_decimal_string(i: i64) -> (out: String)
    ensures
        out@ == signed_decimal(i as int),
{
    let mut out = String::new();
    push_signed_decimal(&mut out, i);
    out
}

/// The fragments of `parts` in order, with `sep` between each two neighbours.
pub open spec fn join(parts: Seq<Seq<char>>, sep: Seq<char>) -> Seq<char>
    decreases parts.len(),
{
    if parts.len() == 0 {
        Seq::empty()
    } else if parts.len() == 1 {
        parts[0]
    } else {
        join(parts.drop_last(), sep) + sep + parts.last()
    }
}

/// Joining one more fragment puts the separator before it, unless it is the
/// first.
pub proof fn lemma_join_push(parts: Seq<Seq<char>>, sep: Seq<char>, last: Seq<char>)
    ensures
        join(parts.push(last), sep) == (if parts.len() == 0 {
            last
        } else {
            join(parts, sep) + sep + last
        }),
{
    assert(parts.push(last).drop_last() =~= parts);
}

/// The views of a list of strings.
pub open spec fn texts(v: Seq<String>) -> Seq<Seq<char>> {
    v.map_values(|s: String| s@)
}

/// Appends the strings of `parts`, with `sep` between each two neighbours.
pub fn push_joined(out: &mut String, parts: &Vec<String>, sep: &str)
    ensures
        final(out)@ == old(out)@ + join(texts(parts@), sep@),
{
    let ghost start = out@;
    let mut i: usize = 0;
    while i < parts.len()
        invariant
            i <= parts.len(),
            out@ == start + join(texts(parts@).take(i as int), sep@),
        decreases parts.len() - i,
    {
        proof {
            let all = texts(parts@);
            assert(all.take(i + 1).drop_last() =~= all.take(i as int));
            assert(all.take(i + 1).last() == parts@[i as int]@);
        }
        if i > 0 {
            out.append(sep);
        }
        out.append(parts[i].as_str());
        i = i + 1;
    }
    proof {
        assert(texts(parts@).take(parts.len() as int) =~= texts(parts@));
    }
}

/// The text of an optional string slice.
pub open spec fn optional_str(o: Option<&str>) -> Option<Seq<char>> {
    match o {
        Some(s) => Some(s@),
        None => None,
    }
}

/// The views of a list of rows of strings.
pub open spec fn row_texts(rows: Seq<Vec<String>>) -> Seq<Seq<Seq<char>>> {
    rows.map_values(|r: Vec<String>| texts(r@))
}

/// One row of literals as a parenthesised, comma-separated tuple.
pub open spec fn row_tuple(row: Seq<Seq<char>>) -> Seq<char> {
    seq!['('] + join(row, ", "@) + seq![')']
}

/// The tuples of `rows`.
pub open spec fn row_tuples(rows: Seq<Seq<Seq<char>>>) -> Seq<Seq<char>> {
    rows.map_values(|r: Seq<Seq<char>>| row_tuple(r))
}

/// The tuples of `rows`, one per line.
pub open spec fn values_list(rows: Seq<Seq<Seq<char>>>) -> Seq<char> {
    join(row_tuples(rows), ",\n  "@)
}

/// Appends the tuples of `rows`, one per line.
pub fn push_values_list(out: &mut String, rows: &[Vec<String>])
    ensures
        final(out)@ == old(out)@ + values_list(row_texts(rows@)),
{
    let ghost start = out@;
    let ghost tuples = row_tuples(row_texts(rows@));
    let mut i: usize = 0;
    while i < rows.len()
        invariant
            i <= rows.len(),
            tuples == row_tuples(row_texts(rows@)),
            out@ == start + join(tuples.take(i as int), ",\n  "@),
        decreases rows.len() - i,
    {
        let ghost before = out@;
        if i > 0 {
            out.append(",\n  ");
        }
        out.push('(');
        push_joined(out, &rows[i], ", ");
        out.push(')');
        proof {
            let tuple = row_tuple(texts(rows@[i as int]@));
            assert(tuples[i as int] == tuple);
            assert(tuples.take(i + 1) =~= tuples.take(i as int).push(tuple));
            lemma_join_push(tuples.take(i as int), ",\n  "@, tuple);
            if i > 0 {
                assert(out@ =~= before + ",\n  "@ + tuple);
            } else {
                assert(out@ =~= before + tuple);
            }
        }
        i = i + 1;
    }
    proof {
        assert(tuples.take(rows.len() as int) =~= tuples);
    }
}

} // verus!
