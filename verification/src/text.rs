//! Decimal rendering of numbers.

use vstd::arithmetic::div_mod::{lemma_fundamental_div_mod, lemma_fundamental_div_mod_converse};
use vstd::prelude::*;

verus! {

/// The character of a decimal digit.
pub open spec fn digit_char(d: nat) -> char {
    if d == 0 {
        '0'
    } else if d == 1 {
        '1'
    } else if d == 2 {
        '2'
    } else if d == 3 {
        '3'
    } else if d == 4 {
        '4'
    } else if d == 5 {
        '5'
    } else if d == 6 {
        '6'
    } else if d == 7 {
        '7'
    } else if d == 8 {
        '8'
    } else {
        '9'
    }
}

/// The decimal digits of a number, most significant first, without leading
/// zeros; zero is the single digit `0`.
pub open spec fn decimal(n: nat) -> Seq<char>
    decreases n,
{
    if n < 10 {
        seq![digit_char(n)]
    } else {
        decimal(n / 10).push(digit_char(n % 10))
    }
}

/// A number rounded to tenths of `unit`, halves going to the even tenth.
pub open spec fn rounded_tenths(amount: nat, unit: nat) -> nat
    recommends
        unit > 0,
{
    let scaled = amount * 10;
    let floor = scaled / unit;
    let rest = scaled % unit;
    if rest * 2 > unit || (rest * 2 == unit && floor % 2 == 1) {
        floor + 1
    } else {
        floor
    }
}

/// A count of tenths written with one decimal place.
pub open spec fn one_decimal(tenths: nat) -> Seq<char> {
    decimal(tenths / 10) + seq!['.'] + seq![digit_char(tenths % 10)]
}

/// The lower-case form of a text, as `str::to_lowercase` gives it.
pub uninterp spec fn lowercase(text: Seq<char>) -> Seq<char>;

/// `str::to_lowercase` returns the lower-case equivalent of the string, by
/// the Unicode rules for lower case. The result depends on the text alone
/// and is named [`lowercase`].
pub assume_specification[ str::to_lowercase ](s: &str) -> (lower: String)
    ensures
        lower@ == lowercase(s@),
;

/// Whether a character is a letter or a digit, as `char::is_alphanumeric`
/// tells it.
pub uninterp spec fn alphanumeric(c: char) -> bool;

/// `char::is_alphanumeric` returns true for a character that is alphabetic
/// or numeric by the Unicode character database. The result depends on the
/// character alone and is named [`alphanumeric`].
pub assume_specification[ char::is_alphanumeric ](c: char) -> (yes: bool)
    ensures
        yes == alphanumeric(c),
;

/// `String::push` appends the character to the end of the string.
pub assume_specification[ std::string::String::push ](s: &mut std::string::String, c: char)
    ensures
        final(s)@ == old(s)@.push(c),
;

/// The texts of a list of strings.
pub open spec fn texts(lines: Seq<String>) -> Seq<Seq<char>> {
    Seq::new(lines.len(), |i: int| lines[i]@)
}

/// Whether two strings hold the same text.
pub fn str_eq(a: &str, b: &str) -> (same: bool)
    ensures
        same == (a@ == b@),
{
    let left: String = a.to_owned();
    let right: String = b.to_owned();
    left == right
}

/// The three texts joined in order.
pub fn concat3(a: &str, b: &str, c: &str) -> (joined: String)
    ensures
        joined@ == a@ + b@ + c@,
{
    let mut joined: String = a.to_owned();
    joined.append(b);
    joined.append(c);
    joined
}

/// The text of one decimal digit.
pub fn digit_str(d: u64) -> (s: &'static str)
    requires
        d < 10,
    ensures
        s@ == seq![digit_char(d as nat)],
{
    proof {
        reveal_strlit("0");
        reveal_strlit("1");
        reveal_strlit("2");
        reveal_strlit("3");
        reveal_strlit("4");
        reveal_strlit("5");
        reveal_strlit("6");
        reveal_strlit("7");
        reveal_strlit("8");
        reveal_strlit("9");
    }
    let s = if d == 0 {
        "0"
    } else if d == 1 {
        "1"
    } else if d == 2 {
        "2"
    } else if d == 3 {
        "3"
    } else if d == 4 {
        "4"
    } else if d == 5 {
        "5"
    } else if d == 6 {
        "6"
    } else if d == 7 {
        "7"
    } else if d == 8 {
        "8"
    } else {
        "9"
    };
    assert(s@ =~= seq![digit_char(d as nat)]);
    s
}

/// Writes a number in decimal.
pub fn u64_to_string(n: u64) -> (s: String)
    ensures
        s@ == decimal(n as nat),
    decreases n,
{
    if n < 10 {
        digit_str(n).to_owned()
    } else {
        let mut s = u64_to_string(n / 10);
        s.append(digit_str(n % 10));
        s
    }
}

/// Writes a number of tenths with one decimal place.
pub fn tenths_to_string(tenths: u64) -> (s: String)
    ensures
        s@ == one_decimal(tenths as nat),
{
    let mut s = u64_to_string(tenths / 10);
    s.append(".");
    s.append(digit_str(tenths % 10));
    proof {
        reveal_strlit(".");
        assert("."@ =~= seq!['.']);
    }
    s
}

/// Rounds `amount / unit` to tenths, halves going to the even tenth.
pub fn round_to_tenths(amount: u64, unit: u64) -> (tenths: u64)
    requires
        16 <= unit <= 0x1_0000_0000,
    ensures
        tenths == rounded_tenths(amount as nat, unit as nat),
{
    let whole: u64 = amount / unit;
    let part: u64 = amount % unit;
    let floor_part: u64 = (part * 10) / unit;
    let rest: u64 = (part * 10) % unit;
    assert(whole * 16 <= amount) by (nonlinear_arith)
        requires
            whole == amount / unit,
            unit >= 16,
    ;
    let floor: u64 = whole * 10 + floor_part;
    proof {
        let scaled = amount as int * 10;
        lemma_fundamental_div_mod(amount as int, unit as int);
        lemma_fundamental_div_mod(part as int * 10, unit as int);
        assert(scaled == floor as int * unit as int + rest as int) by (nonlinear_arith)
            requires
                scaled == amount as int * 10,
                amount as int == unit as int * whole as int + part as int,
                part as int * 10 == unit as int * floor_part as int + rest as int,
                floor as int == whole as int * 10 + floor_part as int,
        ;
        lemma_fundamental_div_mod_converse(scaled, unit as int, floor as int, rest as int);
    }
    let half_or_more: bool = rest >= unit - rest;
    let exactly_half: bool = rest == unit - rest;
    if half_or_more && (!exactly_half || floor % 2 == 1) {
        floor + 1
    } else {
        floor
    }
}

/// Whether a text begins with a prefix.
pub open spec fn has_prefix(text: Seq<char>, prefix: Seq<char>) -> bool {
    prefix.len() <= text.len() && text.take(prefix.len() as int) == prefix
}

/// Whether a text begins with a prefix.
pub fn starts_with(text: &str, prefix: &str) -> (yes: bool)
    ensures
        yes == has_prefix(text@, prefix@),
{
    let n: usize = prefix.unicode_len();
    if n > text.unicode_len() {
        false
    } else {
        str_eq(text.substring_char(0, n), prefix)
    }
}

/// The parts of a list in order, with the separator between each two.
pub open spec fn joined(parts: Seq<Seq<char>>, separator: Seq<char>) -> Seq<char>
    decreases parts.len(),
{
    if parts.len() == 0 {
        Seq::empty()
    } else if parts.len() == 1 {
        parts[0]
    } else {
        joined(parts.drop_last(), separator) + separator + parts.last()
    }
}

/// Joins the parts of a list, with the separator between each two.
pub fn join(parts: &Vec<String>, separator: &str) -> (text: String)
    ensures
        text@ == joined(texts(parts@), separator@),
{
    let mut text: String = String::new();
    let mut i: usize = 0;
    assert(texts(parts@).take(0) =~= Seq::<Seq<char>>::empty());
    while i < parts.len()
        invariant
            i <= parts.len(),
            text@ == joined(texts(parts@).take(i as int), separator@),
        decreases parts.len() - i,
    {
        proof {
            let upto = texts(parts@).take(i + 1);
            assert(upto.drop_last() =~= texts(parts@).take(i as int));
            assert(upto.last() == parts@[i as int]@);
            if i == 0 {
                assert(upto[0] == parts@[0]@);
                assert(Seq::<char>::empty() + parts@[0]@ =~= parts@[0]@);
            }
        }
        if i > 0 {
            text.append(separator);
        }
        text.append(parts[i].as_str());
        i += 1;
    }
    assert(texts(parts@).take(parts.len() as int) =~= texts(parts@));
    text
}

/// The number of bytes that a character takes in UTF-8.
pub open spec fn utf8_len(c: char) -> nat {
    if (c as u32) < 0x80 {
        1
    } else if (c as u32) < 0x800 {
        2
    } else if (c as u32) < 0x10000 {
        3
    } else {
        4
    }
}

/// The number of bytes that a text takes in UTF-8.
pub open spec fn byte_len(text: Seq<char>) -> nat
    decreases text.len(),
{
    if text.len() == 0 {
        0
    } else {
        utf8_len(text[0]) + byte_len(text.skip(1))
    }
}

/// The number of characters of the longest beginning of a text that takes at
/// most `limit` bytes in UTF-8.
pub open spec fn fitting_len(text: Seq<char>, limit: nat) -> nat
    decreases text.len(),
{
    if text.len() == 0 || utf8_len(text[0]) > limit {
        0
    } else {
        1 + fitting_len(text.skip(1), (limit - utf8_len(text[0])) as nat)
    }
}

/// The whole text fits exactly when its bytes are within the limit, and no
/// more characters fit than there are.
pub proof fn lemma_fitting_len(text: Seq<char>, limit: nat)
    ensures
        fitting_len(text, limit) <= text.len(),
        fitting_len(text, limit) == text.len() <==> byte_len(text) <= limit,
        byte_len(text.take(fitting_len(text, limit) as int)) <= limit,
    decreases text.len(),
{
    if text.len() == 0 || utf8_len(text[0]) > limit {
        assert(text.take(0) =~= Seq::<char>::empty());
    } else {
        let rest = text.skip(1);
        let left = (limit - utf8_len(text[0])) as nat;
        lemma_fitting_len(rest, left);
        let k = fitting_len(rest, left);
        let head = text.take(k as int + 1);
        assert(head[0] == text[0]);
        assert(head.skip(1) =~= rest.take(k as int));
    }
}

/// The bytes of two texts in a row are the bytes of both.
pub proof fn lemma_byte_len_concat(a: Seq<char>, b: Seq<char>)
    ensures
        byte_len(a + b) == byte_len(a) + byte_len(b),
    decreases a.len(),
{
    if a.len() == 0 {
        assert(a + b =~= b);
    } else {
        assert((a + b)[0] == a[0]);
        assert((a + b).skip(1) =~= a.skip(1) + b);
        lemma_byte_len_concat(a.skip(1), b);
    }
}

/// The number of bytes that a character takes in UTF-8.
pub fn char_utf8_len(c: char) -> (n: usize)
    ensures
        n == utf8_len(c),
        1 <= n <= 4,
{
    let code: u32 = c as u32;
    if code < 0x80 {
        1
    } else if code < 0x800 {
        2
    } else if code < 0x10000 {
        3
    } else {
        4
    }
}

/// Counts the characters of the longest beginning of a text that takes at
/// most `limit` bytes in UTF-8.
pub fn count_fitting(text: &str, limit: usize) -> (count: usize)
    ensures
        count == fitting_len(text@, limit as nat),
        count <= text@.len(),
{
    let len: usize = text.unicode_len();
    let mut count: usize = 0;
    let mut left: usize = limit;
    assert(text@.skip(0) =~= text@);
    while count < len
        invariant
            count <= len,
            len == text@.len(),
            left <= limit,
            fitting_len(text@, limit as nat) == count + fitting_len(
                text@.skip(count as int),
                left as nat,
            ),
        decreases len - count,
    {
        let width: usize = char_utf8_len(text.get_char(count));
        proof {
            assert(text@.skip(count as int)[0] == text@[count as int]);
            assert(text@.skip(count as int).skip(1) =~= text@.skip(count + 1));
        }
        if width > left {
            return count;
        }
        left -= width;
        count += 1;
    }
    count
}

} // verus!
