//! Text that the rest of the library is made of: decimal numbers, identifiers
//! in their printed form, and the few string operations that keys and names need.

use vstd::arithmetic::power::pow;
use vstd::arithmetic::div_mod::lemma_mod_breakdown;
use vstd::arithmetic::power::lemma_pow_positive;
use vstd::prelude::*;
use vstd::string::*;

verus! {

/// The character that stands for a decimal digit.
pub open spec fn digit_char(digit: nat) -> char {
    (48 + digit) as char
}

/// A number written in decimal, without leading zeros.
pub open spec fn decimal(n: nat) -> Seq<char>
    decreases n,
{
    if n < 10 {
        seq![digit_char(n)]
    } else {
        decimal(n / 10).push(digit_char(n % 10))
    }
}

fn digit_text(digit: u64) -> (text: &'static str)
    requires
        digit < 10,
    ensures
        text@ == seq![digit_char(digit as nat)],
{
    proof {
        reveal_strlit("0");
        reveal_strlit("1");
        reveal_strlit("2");
        reveal_strlit("3");
        reveal_strlit("4");
        reveal_strlit("5");
        reveal_strlit("6");
        reveal_strlit("7");
        reveal_strlit("8");
        reveal_strlit("9");
    }
    let text = match digit {
        0 => "0",
        1 => "1",
        2 => "2",
        3 => "3",
        4 => "4",
        5 => "5",
        6 => "6",
        7 => "7",
        8 => "8",
        _ => "9",
    };
    assert(text@ =~= seq![digit_char(digit as nat)]);
    text
}

/// Writes a number in decimal.
pub fn decimal_text(n: u64) -> (text: String)
    ensures
        text@ == decimal(n as nat),
    decreases n,
{
    if n < 10 {
        digit_text(n).to_owned()
    } else {
        let mut text = decimal_text(n / 10);
        text.append(digit_text(n % 10));
        assert(text@ =~= decimal(n as nat));
        text
    }
}

/// Two texts with a colon between them, the shape of every Redis key.
pub open spec fn colon_joined(first: Seq<char>, second: Seq<char>) -> Seq<char> {
    first + seq![':'] + second
}

/// Joins two texts with a colon.
pub fn join_with_colon(first: &str, second: &str) -> (text: String)
    ensures
        text@ == colon_joined(first@, second@),
{
    proof {
        reveal_strlit(":");
    }
    let mut text = first.to_owned();
    text.append(":");
    text.append(second);
    assert(":"@ =~= seq![':']);
    text
}

/// `text` without its last character where that character is `suffix`, and
/// `text` itself otherwise.
pub open spec fn without_suffix(text: Seq<char>, suffix: char) -> Seq<char> {
    if text.len() > 0 && text.last() == suffix {
        text.drop_last()
    } else {
        text
    }
}

/// Drops one trailing `suffix`, if there is one.
pub fn strip_suffix<'a>(text: &'a str, suffix: char) -> (stripped: &'a str)
    ensures
        stripped@ == without_suffix(text@, suffix),
{
    let len = text.unicode_len();
    if len > 0 && text.get_char(len - 1) == suffix {
        let stripped = text.substring_char(0, len - 1);
        assert(stripped@ =~= text@.drop_last());
        stripped
    } else {
        text
    }
}

/// The characters with the Unicode property `White_Space`.
pub open spec fn is_white(c: char) -> bool {
    ||| 0x09 <= c as int <= 0x0d
    ||| c as int == 0x20
    ||| c as int == 0x85
    ||| c as int == 0xa0
    ||| c as int == 0x1680
    ||| 0x2000 <= c as int <= 0x200a
    ||| c as int == 0x2028
    ||| c as int == 0x2029
    ||| c as int == 0x202f
    ||| c as int == 0x205f
    ||| c as int == 0x3000
}

/// A text without the white space that leads and trails it.
pub open spec fn trimmed(text: Seq<char>) -> Seq<char>
    decreases text.len(),
{
    if text.len() == 0 {
        text
    } else if is_white(text.first()) {
        trimmed(text.drop_first())
    } else if is_white(text.last()) {
        trimmed(text.drop_last())
    } else {
        text
    }
}

/// `str::trim`: the text without leading and trailing Unicode white space.
#[verifier::external_body]
pub(crate) fn trim_text<'a>(text: &'a str) -> (inner: &'a str)
    ensures
        inner@ == trimmed(text@),
{
    text.trim()
}

/// What `str::to_lowercase` makes of a text.
pub uninterp spec fn lowercase(text: Seq<char>) -> Seq<char>;

/// An ASCII character in lower case.
pub open spec fn ascii_lower(c: char) -> char {
    if 65 <= c as int <= 90 {
        (c as int + 32) as char
    } else {
        c
    }
}

/// Whether every character of a text is an ASCII character.
pub open spec fn all_ascii(text: Seq<char>) -> bool {
    forall|i: int| 0 <= i < text.len() ==> (#[trigger] text[i]) as int <= 127
}

/// `str::to_lowercase`: a function of the text alone, and on an ASCII text the
/// lower case of each of its characters. What it does beyond ASCII follows the
/// Unicode tables and is left to its name.
#[verifier::external_body]
pub(crate) fn to_lowercase_text(text: &str) -> (lower: String)
    ensures
        lower@ == lowercase(text@),
        all_ascii(text@) ==> lower@ == text@.map_values(|c: char| ascii_lower(c)),
{
    text.to_lowercase()
}

/// The character for one hexadecimal digit, in lower case.
pub open spec fn hex_char(digit: int) -> char {
    if digit < 10 {
        (48 + digit) as char
    } else {
        (87 + digit) as char
    }
}

/// Which hexadecimal digit of an identifier, counted from the left, stands at
/// place `i` of its printed form.
pub open spec fn hex_place(i: int) -> int {
    if i < 8 {
        i
    } else if i < 13 {
        i - 1
    } else if i < 18 {
        i - 2
    } else if i < 23 {
        i - 3
    } else {
        i - 4
    }
}

/// Whether a hyphen stands at place `i` of the printed form of an identifier.
pub open spec fn is_hyphen_place(i: int) -> bool {
    i == 8 || i == 13 || i == 18 || i == 23
}

/// The hexadecimal digit of `id` at distance `k` from the right.
pub open spec fn hex_digit_of(id: u128, k: nat) -> int {
    (id as int / pow(16, k)) % 16
}

/// A 128-bit identifier as it is printed: 32 lower-case hexadecimal digits in
/// groups of eight, four, four, four and twelve with hyphens between them.
pub open spec fn uuid_text(id: u128) -> Seq<char> {
    Seq::new(
        36,
        |i: int|
            if is_hyphen_place(i) {
                '-'
            } else {
                hex_char(hex_digit_of(id, (31 - hex_place(i)) as nat))
            },
    )
}

/// `Display` of `uuid::Uuid`: the hyphenated lower-case form.
#[verifier::external_body]
pub(crate) fn print_uuid(id: u128) -> (text: String)
    ensures
        text@ == uuid_text(id),
{
    uuid::Uuid::from_u128(id).to_string()
}

proof fn lemma_hex_digits_fix_remainder(a: u128, b: u128, k: nat)
    requires
        forall|j: nat| j < k ==> #[trigger] hex_digit_of(a, j) == hex_digit_of(b, j),
    ensures
        a as int % pow(16, k) == b as int % pow(16, k),
    decreases k,
{
    reveal(pow);
    if k > 0 {
        let below = (k - 1) as nat;
        lemma_hex_digits_fix_remainder(a, b, below);
        lemma_pow_positive(16, below);
        assert(pow(16, k) == pow(16, below) * 16) by (nonlinear_arith)
            requires
                pow(16, k) == 16 * pow(16, below),
        ;
        lemma_mod_breakdown(a as int, pow(16, below), 16);
        lemma_mod_breakdown(b as int, pow(16, below), 16);
        assert(hex_digit_of(a, below) == hex_digit_of(b, below));
    }
}

/// Two identifiers that are printed alike are the same.
pub proof fn law_uuid_texts_differ(a: u128, b: u128)
    ensures
        uuid_text(a).len() == 36,
        uuid_text(a) == uuid_text(b) ==> a == b,
{
    if uuid_text(a) == uuid_text(b) {
        assert forall|j: nat| j < 32 implies #[trigger] hex_digit_of(a, j) == hex_digit_of(b, j) by {
            let q = 31 - j;
            let i = if q < 8 {
                q
            } else if q < 12 {
                q + 1
            } else if q < 16 {
                q + 2
            } else if q < 20 {
                q + 3
            } else {
                q + 4
            };
            assert(hex_place(i) == q && !is_hyphen_place(i));
            assert(uuid_text(a)[i] == uuid_text(b)[i]);
            assert(0 <= hex_digit_of(a, j) < 16 && 0 <= hex_digit_of(b, j) < 16);
        }
        lemma_hex_digits_fix_remainder(a, b, 32);
        assert(pow(16, 32) == 0x1_0000_0000_0000_0000_0000_0000_0000_0000) by {
            reveal_with_fuel(pow, 33);
        }
    }
}

/// Whether a text comes before another in the order of their characters.
pub open spec fn comes_before(a: Seq<char>, b: Seq<char>) -> bool
    decreases a.len(),
{
    if b.len() == 0 {
        false
    } else if a.len() == 0 {
        true
    } else if a.first() == b.first() {
        comes_before(a.drop_first(), b.drop_first())
    } else {
        (a.first() as int) < (b.first() as int)
    }
}

/// No two texts come before each other.
pub proof fn lemma_order_is_strict(a: Seq<char>, b: Seq<char>)
    ensures
        !(comes_before(a, b) && comes_before(b, a)),
    decreases a.len(),
{
    if a.len() > 0 && b.len() > 0 && a.first() == b.first() {
        lemma_order_is_strict(a.drop_first(), b.drop_first());
    }
}

/// The number that a text of decimal digits stands for.
pub open spec fn number_of(text: Seq<char>) -> int
    decreases text.len(),
{
    if text.len() == 0 {
        0
    } else {
        10 * number_of(text.drop_last()) + (text.last() as int - '0' as int)
    }
}

/// A number reads back from its decimal digits, and is written without leading zeros.
pub proof fn law_decimal_reads_back(n: nat)
    ensures
        number_of(decimal(n)) == n,
        decimal(n).len() > 0,
        n > 0 ==> decimal(n)[0] != '0',
        forall|i: int|
            0 <= i < decimal(n).len() ==> '0' as int <= (#[trigger] decimal(n)[i]) as int
                <= '9' as int,
    decreases n,
{
    reveal_with_fuel(number_of, 2);
    if n < 10 {
        assert(decimal(n).drop_last() =~= Seq::empty());
    } else {
        law_decimal_reads_back(n / 10);
        assert(decimal(n).drop_last() =~= decimal(n / 10));
        assert(decimal(n).last() as int == 48 + n % 10);
        assert forall|i: int| 0 <= i < decimal(n).len() implies '0' as int <= (
        #[trigger] decimal(n)[i]) as int <= '9' as int by {
            if i < decimal(n / 10).len() {
                assert(decimal(n)[i] == decimal(n / 10)[i]);
            }
        }
        assert(decimal(n)[0] == decimal(n / 10)[0]);
    }
}

/// Joining puts one text whole before the colon and the other whole behind it, and
/// nothing else.
pub proof fn law_joined_texts_come_apart(first: Seq<char>, second: Seq<char>)
    ensures
        colon_joined(first, second).len() == first.len() + 1 + second.len(),
        colon_joined(first, second).take(first.len() as int) == first,
        colon_joined(first, second)[first.len() as int] == ':',
        colon_joined(first, second).skip(first.len() + 1int) == second,
{
    assert(colon_joined(first, second).take(first.len() as int) =~= first);
    assert(colon_joined(first, second).skip(first.len() + 1int) =~= second);
}

/// Stripping a suffix takes off exactly one, and leaves a text that does not end in it
/// alone.
pub proof fn law_one_suffix_is_stripped(text: Seq<char>, suffix: char)
    ensures
        without_suffix(text.push(suffix), suffix) == text,
        text.len() == 0 || text.last() != suffix ==> without_suffix(text, suffix) == text,
{
    assert(text.push(suffix).drop_last() =~= text);
}

proof fn lemma_trimmed_bounds(text: Seq<char>) -> (bounds: (int, int))
    ensures
        0 <= bounds.0 <= bounds.1 <= text.len(),
        trimmed(text) == text.subrange(bounds.0, bounds.1),
        forall|i: int|
            0 <= i < bounds.0 || bounds.1 <= i < text.len() ==> is_white(#[trigger] text[i]),
        trimmed(text).len() > 0 ==> !is_white(trimmed(text).first()) && !is_white(
            trimmed(text).last(),
        ),
    decreases text.len(),
{
    if text.len() == 0 {
        assert(trimmed(text) =~= text.subrange(0, 0));
        (0, 0)
    } else if is_white(text.first()) {
        let rest = text.drop_first();
        let (start, end) = lemma_trimmed_bounds(rest);
        assert(rest.subrange(start, end) =~= text.subrange(start + 1, end + 1));
        assert forall|i: int| 0 <= i < start + 1 || end + 1 <= i < text.len() implies is_white(
            #[trigger] text[i],
        ) by {
            if i > 0 {
                assert(text[i] == rest[i - 1]);
            }
        }
        (start + 1, end + 1)
    } else if is_white(text.last()) {
        let rest = text.drop_last();
        let (start, end) = lemma_trimmed_bounds(rest);
        assert(rest.subrange(start, end) =~= text.subrange(start, end));
        assert forall|i: int| 0 <= i < start || end <= i < text.len() implies is_white(
            #[trigger] text[i],
        ) by {
            if i < rest.len() {
                assert(text[i] == rest[i]);
            }
        }
        (start, end)
    } else {
        assert(trimmed(text) =~= text.subrange(0, text.len() as int));
        (0, text.len() as int)
    }
}

/// Trimming takes away nothing but white space at either end, and all of it. No letter,
/// digit or other printed character of ASCII is white space; the space is.
pub proof fn law_trimming_takes_white_space_only(text: Seq<char>, c: char)
    ensures
        exists|before: Seq<char>, after: Seq<char>|
            {
                &&& text == #[trigger] (before + trimmed(text) + after)
                &&& forall|i: int| 0 <= i < before.len() ==> is_white(#[trigger] before[i])
                &&& forall|i: int| 0 <= i < after.len() ==> is_white(#[trigger] after[i])
            },
        trimmed(text).len() > 0 ==> !is_white(trimmed(text).first()) && !is_white(
            trimmed(text).last(),
        ),
        '!' as int <= c as int <= '~' as int ==> !is_white(c),
        is_white(' ') && is_white('\t') && is_white('\n') && is_white('\r'),
{
    let (start, end) = lemma_trimmed_bounds(text);
    let before = text.subrange(0, start);
    let after = text.subrange(end, text.len() as int);
    assert(text =~= before + trimmed(text) + after);
    assert forall|i: int| 0 <= i < before.len() implies is_white(#[trigger] before[i]) by {
        assert(before[i] == text[i]);
    }
    assert forall|i: int| 0 <= i < after.len() implies is_white(#[trigger] after[i]) by {
        assert(after[i] == text[end + i]);
    }
}

}
