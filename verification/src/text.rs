//! Decimal and hexadecimal numerals, and substring search.

use vstd::prelude::*;
use vstd::string::*;

verus! {

/// The digit for a value below sixteen, in lower case.
pub open spec fn digit(value: nat) -> char
    recommends
        value < 16,
{
    if value < 10 {
        (48 + value) as char
    } else {
        (87 + value) as char
    }
}

/// The decimal numeral of a natural number, without leading zeros.
pub open spec fn natural_numeral(value: nat) -> Seq<char>
    decreases value,
{
    if value < 10 {
        seq![digit(value)]
    } else {
        natural_numeral(value / 10).push(digit(value % 10))
    }
}

/// The decimal numeral of an integer, with a leading `-` when it is negative.
pub open spec fn integer_numeral(value: int) -> Seq<char> {
    if value < 0 {
        seq!['-'] + natural_numeral((-value) as nat)
    } else {
        natural_numeral(value as nat)
    }
}

/// Two lower-case hexadecimal digits for each byte, the high half first.
pub open spec fn lower_hex(bytes: Seq<u8>) -> Seq<char> {
    Seq::new(
        bytes.len() * 2,
        |i: int|
            if i % 2 == 0 {
                digit((bytes[i / 2] / 16) as nat)
            } else {
                digit((bytes[i / 2] % 16) as nat)
            },
    )
}

/// `pattern` stands in `text` from position `at` on.
pub open spec fn occurs_at(text: Seq<char>, pattern: Seq<char>, at: int) -> bool {
    0 <= at && at + pattern.len() <= text.len() && text.subrange(at, at + pattern.len()) == pattern
}

/// `pattern` stands somewhere in `text`.
pub open spec fn occurs_in(text: Seq<char>, pattern: Seq<char>) -> bool {
    exists|at: int| #[trigger] occurs_at(text, pattern, at)
}

fn digit_text(value: u8) -> (r: &'static str)
    requires
        value < 16,
    ensures
        r@ == seq![digit(value as nat)],
{
    proof {
        reveal_strlit("0");
        reveal_strlit("1");
        reveal_strlit("2");
        reveal_strlit("3");
        reveal_strlit("4");
        reveal_strlit("5");
        reveal_strlit("6");
        reveal_strlit("7");
        reveal_strlit("8");
        reveal_strlit("9");
        reveal_strlit("a");
        reveal_strlit("b");
        reveal_strlit("c");
        reveal_strlit("d");
        reveal_strlit("e");
        reveal_strlit("f");
    }
    let r: &'static str = match value {
        0 => "0",
        1 => "1",
        2 => "2",
        3 => "3",
        4 => "4",
        5 => "5",
        6 => "6",
        7 => "7",
        8 => "8",
        9 => "9",
        10 => "a",
        11 => "b",
        12 => "c",
        13 => "d",
        14 => "e",
        _ => "f",
    };
    assert(r@ =~= seq![digit(value as nat)]);
    r
}

/// Whether two texts hold the same characters.
pub fn same_text(left: &str, right: &str) -> (r: bool)
    ensures
        r == (left@ == right@),
{
    left.to_string() == right.to_string()
}

/// Writes an unsigned number in decimal.
pub fn format_u64(value: u64) -> (r: String)
    ensures
        r@ == natural_numeral(value as nat),
    decreases value,
{
    if value < 10 {
        digit_text(value as u8).to_string()
    } else {
        let mut r = format_u64(value / 10);
        r.append(digit_text((value % 10) as u8));
        assert(r@ =~= natural_numeral(value as nat));
        r
    }
}

/// Writes a signed number in decimal.
pub fn format_i64(value: i64) -> (r: String)
    ensures
        r@ == integer_numeral(value as int),
{
    if value < 0 {
        let magnitude: u64 = (-(value as i128)) as u64;
        let mut r = "-".to_string();
        proof {
            reveal_strlit("-");
        }
        r.append(format_u64(magnitude).as_str());
        assert(r@ =~= integer_numeral(value as int));
        r
    } else {
        format_u64(value as u64)
    }
}

/// Writes bytes in lower-case hexadecimal.
pub fn format_hex(bytes: &[u8]) -> (r: String)
    ensures
        r@ == lower_hex(bytes@),
{
    let mut r = String::new();
    let mut i: usize = 0;
    while i < bytes.len()
        invariant
            i <= bytes.len(),
            r@ == lower_hex(bytes@.take(i as int)),
        decreases bytes.len() - i,
    {
        let byte: u8 = bytes[i];
        r.append(digit_text(byte / 16));
        r.append(digit_text(byte % 16));
        assert(r@ =~= lower_hex(bytes@.take(i + 1)));
        i = i + 1;
    }
    assert(bytes@.take(i as int) =~= bytes@);
    r
}

fn characters(text: &str) -> (r: Vec<char>)
    ensures
        r@ == text@,
{
    let mut r: Vec<char> = Vec::new();
    for c in it: text.chars()
        invariant
            it.seq() == text@,
            r@ == it.seq().take(it.index() as int),
    {
        r.push(c);
    }
    assert(r@ =~= text@);
    r
}

/// Whether `pattern` stands somewhere in `text`.
pub fn contains(text: &str, pattern: &str) -> (r: bool)
    ensures
        r == occurs_in(text@, pattern@),
{
    let chars = characters(text);
    let wanted = characters(pattern);
    if wanted.len() > chars.len() {
        return false;
    }
    let last: usize = chars.len() - wanted.len();
    let mut at: usize = 0;
    loop
        invariant
            chars@ == text@,
            wanted@ == pattern@,
            last == chars.len() - wanted.len(),
            at <= last,
            forall|k: int| 0 <= k < at ==> !occurs_at(text@, pattern@, k),
        decreases last - at,
    {
        let mut k: usize = 0;
        while k < wanted.len() && chars[at + k] == wanted[k]
            invariant
                chars@ == text@,
                wanted@ == pattern@,
                at + wanted.len() <= chars.len(),
                k <= wanted.len(),
                forall|j: int| 0 <= j < k ==> chars[at + j] == wanted[j],
            decreases wanted.len() - k,
        {
            k = k + 1;
        }
        if k == wanted.len() {
            assert(text@.subrange(at as int, at + pattern@.len()) =~= pattern@);
            assert(occurs_at(text@, pattern@, at as int));
            return true;
        }
        assert(!occurs_at(text@, pattern@, at as int)) by {
            assert(text@.subrange(at as int, at + pattern@.len())[k as int] == chars[at + k]);
        }
        if at == last {
            return false;
        }
        at = at + 1;
    }
}

/// The number that a row of decimal digits stands for.
pub open spec fn decimal_value(numeral: Seq<char>) -> int
    decreases numeral.len(),
{
    if numeral.len() == 0 {
        0
    } else {
        decimal_value(numeral.drop_last()) * 10 + (numeral.last() as int - '0' as int)
    }
}

/// The decimal numeral of a natural number is a row of digits that stands for the number, and it
/// starts with a zero only where it is that zero.
pub proof fn law_natural_numeral_reads_back(value: nat)
    ensures
        natural_numeral(value).len() > 0,
        forall|i: int|
            0 <= i < natural_numeral(value).len() ==> '0' <= #[trigger] natural_numeral(value)[i]
                <= '9',
        natural_numeral(value)[0] == '0' ==> value == 0 && natural_numeral(value).len() == 1,
        decimal_value(natural_numeral(value)) == value,
    decreases value,
{
    let numeral = natural_numeral(value);
    if value < 10 {
        assert(numeral.drop_last() =~= Seq::empty());
        assert(decimal_value(numeral.drop_last()) == 0);
        assert(numeral.last() == digit(value));
    } else {
        law_natural_numeral_reads_back(value / 10);
        let front = natural_numeral(value / 10);
        assert(numeral.drop_last() =~= front);
        assert(numeral[0] == front[0]);
        assert(numeral.last() == digit(value % 10));
        assert forall|i: int| 0 <= i < numeral.len() implies '0' <= #[trigger] numeral[i]
            <= '9' by {
            if i < front.len() {
                assert(numeral[i] == front[i]);
            }
        }
    }
}

/// A negative number is written as a minus sign before the numeral of its magnitude, any other
/// number without a sign, and different numbers are written differently.
pub proof fn law_integer_numerals_differ(left: int, right: int)
    ensures
        left < 0 ==> integer_numeral(left)[0] == '-' && decimal_value(
            integer_numeral(left).drop_first(),
        ) == -left,
        left >= 0 ==> integer_numeral(left)[0] != '-' && decimal_value(integer_numeral(left))
            == left,
        integer_numeral(left) == integer_numeral(right) ==> left == right,
{
    let sides = seq![left, right];
    assert forall|i: int| 0 <= i < 2 implies ({
        let side = #[trigger] sides[i];
        &&& side < 0 ==> integer_numeral(side)[0] == '-' && decimal_value(
            integer_numeral(side).drop_first(),
        ) == -side
        &&& side >= 0 ==> integer_numeral(side)[0] != '-' && decimal_value(integer_numeral(side))
            == side
    }) by {
        let side = sides[i];
        if side < 0 {
            law_natural_numeral_reads_back((-side) as nat);
            assert(integer_numeral(side).drop_first() =~= natural_numeral((-side) as nat));
        } else {
            law_natural_numeral_reads_back(side as nat);
            assert('0' <= natural_numeral(side as nat)[0]);
        }
    }
    assert(sides[0] == left && sides[1] == right);
}

/// The value of a lower-case hexadecimal digit.
pub open spec fn hex_value(digit: char) -> int {
    if '0' <= digit <= '9' {
        digit as int - '0' as int
    } else {
        digit as int - 'a' as int + 10
    }
}

/// Bytes in hexadecimal are lower-case digits, two for each byte, which stand for the byte.
pub proof fn law_lower_hex_reads_back(bytes: Seq<u8>)
    ensures
        lower_hex(bytes).len() == 2 * bytes.len(),
        forall|i: int|
            0 <= i < lower_hex(bytes).len() ==> {
                ||| '0' <= #[trigger] lower_hex(bytes)[i] <= '9'
                ||| 'a' <= lower_hex(bytes)[i] <= 'f'
            },
        forall|i: int|
            0 <= i < bytes.len() ==> #[trigger] bytes[i] == 16 * hex_value(lower_hex(bytes)[2 * i])
                + hex_value(lower_hex(bytes)[2 * i + 1]),
{
    assert forall|i: int| 0 <= i < bytes.len() implies #[trigger] bytes[i] == 16 * hex_value(
        lower_hex(bytes)[2 * i],
    ) + hex_value(lower_hex(bytes)[2 * i + 1]) by {
        let byte = bytes[i];
        assert(lower_hex(bytes)[2 * i] == digit((byte / 16) as nat));
        assert(lower_hex(bytes)[2 * i + 1] == digit((byte % 16) as nat));
    }
}

/// A pattern stands in a text exactly where the text can be parted into what comes before it, the
/// pattern, and what comes after it.
pub proof fn law_occurs_in_parts(text: Seq<char>, pattern: Seq<char>)
    ensures
        occurs_in(text, pattern) <==> exists|before: Seq<char>, after: Seq<char>|
            text == #[trigger] (before + pattern + after),
{
    if occurs_in(text, pattern) {
        let at = choose|at: int| #[trigger] occurs_at(text, pattern, at);
        let before = text.take(at);
        let after = text.skip(at + pattern.len());
        assert(text =~= before + pattern + after) by {
            assert forall|i: int| 0 <= i < text.len() implies text[i] == (before + pattern
                + after)[i] by {
                if at <= i < at + pattern.len() {
                    assert(text.subrange(at, at + pattern.len())[i - at] == text[i]);
                }
            }
        }
    }
    if exists|before: Seq<char>, after: Seq<char>| text == #[trigger] (before + pattern + after) {
        let (before, after) = choose|before: Seq<char>, after: Seq<char>|
            text == #[trigger] (before + pattern + after);
        let at = before.len() as int;
        assert(text.subrange(at, at + pattern.len()) =~= pattern);
        assert(occurs_at(text, pattern, at));
    }
}

} // verus!
