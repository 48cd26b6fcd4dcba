//! IPv4 addresses in dotted-quad notation.

use crate::text::{decimal_nat, digit_char};
use vstd::prelude::*;
use vstd::string::*;

verus! {

/// Whether the character is one of the ten decimal digits.
pub open spec fn is_digit(c: char) -> bool {
    48 <= c as u32 <= 57
}

/// The number that a run of digits stands for.
pub open spec fn digits_value(text: Seq<char>) -> nat
    decreases text.len(),
{
    if text.len() == 0 {
        0
    } else {
        digits_value(text.drop_last()) * 10 + (text.last() as u32 - 48) as nat
    }
}

/// One to three digits that stand for a number up to 255, without a zero in
/// front of another digit.
pub open spec fn is_octet_text(text: Seq<char>) -> bool {
    &&& 1 <= text.len() <= 3
    &&& forall|i: int| 0 <= i < text.len() ==> is_digit(#[trigger] text[i])
    &&& (text.len() > 1 ==> text[0] != '0')
    &&& digits_value(text) <= 255
}

/// The dots at `i`, `j` and `k` part `text` into four octets.
pub open spec fn splits_into_octets(text: Seq<char>, i: int, j: int, k: int) -> bool {
    &&& 0 <= i < j < k < text.len()
    &&& text[i] == '.'
    &&& text[j] == '.'
    &&& text[k] == '.'
    &&& is_octet_text(text.subrange(0, i))
    &&& is_octet_text(text.subrange(i + 1, j))
    &&& is_octet_text(text.subrange(j + 1, k))
    &&& is_octet_text(text.subrange(k + 1, text.len() as int))
}

/// Four octets with a dot between each two, and nothing else.
pub open spec fn is_dotted_quad(text: Seq<char>) -> bool {
    exists|i: int, j: int, k: int| #[trigger] splits_into_octets(text, i, j, k)
}

/// `end` is where the digits that start at `from` stop.
pub open spec fn digits_stop_at(text: Seq<char>, from: int, end: int) -> bool {
    &&& 0 <= from <= end <= text.len()
    &&& forall|p: int| from <= p < end ==> is_digit(#[trigger] text[p])
    &&& (end == text.len() || !is_digit(text[end]))
}

proof fn lemma_octet_stops(text: Seq<char>, from: int, end: int, cut: int)
    requires
        digits_stop_at(text, from, end),
        from <= cut <= text.len(),
        cut == text.len() || text[cut] == '.',
        is_octet_text(text.subrange(from, cut)),
    ensures
        cut == end,
{
    let part = text.subrange(from, cut);
    if cut < end {
        assert(is_digit(text[cut]));
    } else if cut > end {
        assert(part[end - from] == text[end]);
        assert(is_digit(part[end - from]));
    }
}

fn read_octet(text: &str, from: usize, len: usize) -> (read: (usize, bool))
    requires
        len == text@.len(),
        from <= len,
    ensures
        digits_stop_at(text@, from as int, read.0 as int),
        read.1 == is_octet_text(text@.subrange(from as int, read.0 as int)),
{
    let mut end: usize = from;
    loop
        invariant
            len == text@.len(),
            from <= end <= len,
            forall|p: int| from <= p < end ==> is_digit(#[trigger] text@[p]),
        ensures
            digits_stop_at(text@, from as int, end as int),
        decreases len - end,
    {
        if end >= len {
            break ;
        }
        let c = text.get_char(end);
        let code: u32 = c as u32;
        if code < 48 || code > 57 {
            break ;
        }
        end += 1;
    }
    let ghost part = text@.subrange(from as int, end as int);
    assert forall|i: int| 0 <= i < part.len() implies is_digit(#[trigger] part[i]) by {
        assert(part[i] == text@[from + i]);
    }
    let count: usize = end - from;
    if count == 0 || count > 3 {
        return (end, false);
    }
    if count > 1 && text.get_char(from) == '0' {
        assert(part[0] == '0');
        return (end, false);
    }
    assert(part.len() > 1 ==> part[0] != '0') by {
        assert(part[0] == text@[from as int]);
    }
    let mut value: u32 = 0;
    let mut at: usize = from;
    while at < end
        invariant
            len == text@.len(),
            from <= at <= end <= len,
            end - from <= 3,
            forall|p: int| from <= p < end ==> is_digit(#[trigger] text@[p]),
            value == digits_value(text@.subrange(from as int, at as int)),
            at - from == 0 ==> value == 0,
            at - from == 1 ==> value <= 9,
            at - from == 2 ==> value <= 99,
            at - from == 3 ==> value <= 999,
        decreases end - at,
    {
        let c = text.get_char(at);
        assert(is_digit(text@[at as int]));
        let digit: u32 = c as u32 - 48;
        proof {
            let longer = text@.subrange(from as int, at + 1);
            assert(longer.drop_last() =~= text@.subrange(from as int, at as int));
            assert(longer.last() == text@[at as int]);
        }
        value = value * 10 + digit;
        at += 1;
    }
    (end, value <= 255)
}

fn scan_ipv4(ip: &str) -> (valid: bool)
    ensures
        valid == is_dotted_quad(ip@),
{
    let len = ip.unicode_len();
    let ghost text = ip@;
    if len > 15 {
        assert forall|i: int, j: int, k: int| !#[trigger] splits_into_octets(text, i, j, k) by {
            if splits_into_octets(text, i, j, k) {
                assert(text.subrange(0, i).len() <= 3);
                assert(text.subrange(i + 1, j).len() <= 3);
                assert(text.subrange(j + 1, k).len() <= 3);
                assert(text.subrange(k + 1, text.len() as int).len() <= 3);
            }
        }
        return false;
    }
    let (first_end, first_ok) = read_octet(ip, 0, len);
    if !first_ok || first_end >= len || ip.get_char(first_end) != '.' {
        assert forall|i: int, j: int, k: int| !#[trigger] splits_into_octets(text, i, j, k) by {
            if splits_into_octets(text, i, j, k) {
                lemma_octet_stops(text, 0, first_end as int, i);
            }
        }
        return false;
    }
    let (second_end, second_ok) = read_octet(ip, first_end + 1, len);
    if !second_ok || second_end >= len || ip.get_char(second_end) != '.' {
        assert forall|i: int, j: int, k: int| !#[trigger] splits_into_octets(text, i, j, k) by {
            if splits_into_octets(text, i, j, k) {
                lemma_octet_stops(text, 0, first_end as int, i);
                lemma_octet_stops(text, first_end + 1, second_end as int, j);
            }
        }
        return false;
    }
    let (third_end, third_ok) = read_octet(ip, second_end + 1, len);
    if !third_ok || third_end >= len || ip.get_char(third_end) != '.' {
        assert forall|i: int, j: int, k: int| !#[trigger] splits_into_octets(text, i, j, k) by {
            if splits_into_octets(text, i, j, k) {
                lemma_octet_stops(text, 0, first_end as int, i);
                lemma_octet_stops(text, first_end + 1, second_end as int, j);
                lemma_octet_stops(text, second_end + 1, third_end as int, k);
            }
        }
        return false;
    }
    let (last_end, last_ok) = read_octet(ip, third_end + 1, len);
    if !last_ok || last_end != len {
        assert forall|i: int, j: int, k: int| !#[trigger] splits_into_octets(text, i, j, k) by {
            if splits_into_octets(text, i, j, k) {
                lemma_octet_stops(text, 0, first_end as int, i);
                lemma_octet_stops(text, first_end + 1, second_end as int, j);
                lemma_octet_stops(text, second_end + 1, third_end as int, k);
                lemma_octet_stops(text, third_end + 1, last_end as int, len as int);
            }
        }
        return false;
    }
    assert(splits_into_octets(text, first_end as int, second_end as int, third_end as int));
    true
}

/// The decimal text of a number consists of digits, has no zero in front
/// unless the number is zero, and stands for that number.
pub proof fn lemma_decimal_is_digits(n: nat)
    ensures
        decimal_nat(n).len() >= 1,
        forall|i: int| 0 <= i < decimal_nat(n).len() ==> is_digit(#[trigger] decimal_nat(n)[i]),
        n >= 1 ==> decimal_nat(n)[0] != '0',
        digits_value(decimal_nat(n)) == n,
        n < 10 ==> decimal_nat(n).len() == 1,
        10 <= n < 100 ==> decimal_nat(n).len() == 2,
        100 <= n < 1000 ==> decimal_nat(n).len() == 3,
    decreases n,
{
    let text = decimal_nat(n);
    if n < 10 {
        assert(text.drop_last() =~= Seq::<char>::empty());
        assert(digits_value(text.drop_last()) == 0);
    } else {
        lemma_decimal_is_digits(n / 10);
        let front = decimal_nat(n / 10);
        assert(text.drop_last() =~= front);
        assert(text.last() == digit_char(n % 10));
        assert(text[0] == front[0]);
        assert forall|i: int| 0 <= i < text.len() implies is_digit(#[trigger] text[i]) by {
            if i < front.len() {
                assert(text[i] == front[i]);
            }
        }
    }
}

proof fn lemma_digit_char_of_code(c: char)
    requires
        is_digit(c),
    ensures
        digit_char((c as u32 - 48) as nat) == c,
        (c as u32 - 48) as nat <= 9,
        c != '0' ==> (c as u32 - 48) as nat >= 1,
{
}

/// Digits without a zero in front of another digit are the decimal text of
/// the number that they stand for.
pub proof fn lemma_digits_are_decimal(text: Seq<char>)
    requires
        text.len() >= 1,
        forall|i: int| 0 <= i < text.len() ==> is_digit(#[trigger] text[i]),
        text.len() > 1 ==> text[0] != '0',
    ensures
        decimal_nat(digits_value(text)) == text,
        text[0] != '0' ==> digits_value(text) >= 1,
    decreases text.len(),
{
    let front = text.drop_last();
    let end = text[text.len() - 1];
    assert(text.last() == end);
    assert(is_digit(end));
    lemma_digit_char_of_code(end);
    let last = (end as u32 - 48) as nat;
    if text.len() == 1 {
        assert(front =~= Seq::<char>::empty());
        assert(digits_value(front) == 0);
        assert(digits_value(text) == last);
        assert(decimal_nat(last) =~= text);
    } else {
        assert(front[0] == text[0]);
        assert forall|i: int| 0 <= i < front.len() implies is_digit(#[trigger] front[i]) by {
            assert(front[i] == text[i]);
        }
        lemma_digits_are_decimal(front);
        let value = digits_value(text);
        assert(value == digits_value(front) * 10 + last);
        assert(value / 10 == digits_value(front));
        assert(value % 10 == last);
        assert(value >= 10);
        assert(decimal_nat(value) == decimal_nat(value / 10) + seq![digit_char(value % 10)]);
        assert(decimal_nat(value) =~= text);
    }
}

/// An octet's text is the decimal text of a number up to 255, and nothing
/// else is.
pub proof fn law_octet_text_is_decimal(text: Seq<char>)
    ensures
        is_octet_text(text) <==> exists|n: nat| n <= 255 && text == #[trigger] decimal_nat(n),
{
    if is_octet_text(text) {
        lemma_digits_are_decimal(text);
        assert(text == decimal_nat(digits_value(text)));
    }
    if exists|n: nat| n <= 255 && text == #[trigger] decimal_nat(n) {
        let n = choose|n: nat| n <= 255 && text == #[trigger] decimal_nat(n);
        lemma_decimal_is_digits(n);
    }
}

/// Four numbers in decimal with a dot between each two.
pub open spec fn quad_text(a: nat, b: nat, c: nat, d: nat) -> Seq<char> {
    decimal_nat(a) + seq!['.'] + decimal_nat(b) + seq!['.'] + decimal_nat(c) + seq!['.']
        + decimal_nat(d)
}

proof fn lemma_decimal_is_octet(n: nat)
    requires
        n <= 255,
    ensures
        is_octet_text(decimal_nat(n)),
{
    lemma_decimal_is_digits(n);
}

proof fn lemma_octet_is_decimal(text: Seq<char>)
    requires
        is_octet_text(text),
    ensures
        text == decimal_nat(digits_value(text)),
        digits_value(text) <= 255,
{
    lemma_digits_are_decimal(text);
}

proof fn lemma_split_gives_quad(text: Seq<char>, i: int, j: int, k: int)
    requires
        splits_into_octets(text, i, j, k),
    ensures
        text == quad_text(
            digits_value(text.subrange(0, i)),
            digits_value(text.subrange(i + 1, j)),
            digits_value(text.subrange(j + 1, k)),
            digits_value(text.subrange(k + 1, text.len() as int)),
        ),
        digits_value(text.subrange(0, i)) <= 255,
        digits_value(text.subrange(i + 1, j)) <= 255,
        digits_value(text.subrange(j + 1, k)) <= 255,
        digits_value(text.subrange(k + 1, text.len() as int)) <= 255,
{
    let first = text.subrange(0, i);
    let second = text.subrange(i + 1, j);
    let third = text.subrange(j + 1, k);
    let fourth = text.subrange(k + 1, text.len() as int);
    lemma_octet_is_decimal(first);
    lemma_octet_is_decimal(second);
    lemma_octet_is_decimal(third);
    lemma_octet_is_decimal(fourth);
    let dot = seq!['.'];
    assert(first + dot =~= text.subrange(0, i + 1));
    assert(first + dot + second =~= text.subrange(0, j));
    assert(first + dot + second + dot =~= text.subrange(0, j + 1));
    assert(first + dot + second + dot + third =~= text.subrange(0, k));
    assert(first + dot + second + dot + third + dot =~= text.subrange(0, k + 1));
    assert(first + dot + second + dot + third + dot + fourth =~= text);
}

proof fn lemma_quad_splits(a: nat, b: nat, c: nat, d: nat)
    requires
        a <= 255,
        b <= 255,
        c <= 255,
        d <= 255,
    ensures
        is_dotted_quad(quad_text(a, b, c, d)),
{
    let text = quad_text(a, b, c, d);
    lemma_decimal_is_octet(a);
    lemma_decimal_is_octet(b);
    lemma_decimal_is_octet(c);
    lemma_decimal_is_octet(d);
    let i = decimal_nat(a).len() as int;
    let j = i + 1 + decimal_nat(b).len();
    let k = j + 1 + decimal_nat(c).len();
    assert(text.len() == k + 1 + decimal_nat(d).len());
    assert(text.subrange(0, i) =~= decimal_nat(a));
    assert(text.subrange(i + 1, j) =~= decimal_nat(b));
    assert(text.subrange(j + 1, k) =~= decimal_nat(c));
    assert(text.subrange(k + 1, text.len() as int) =~= decimal_nat(d));
    assert(text[i] == '.');
    assert(text[j] == '.');
    assert(text[k] == '.');
    assert(splits_into_octets(text, i, j, k));
}

/// A dotted quad is four numbers up to 255 in decimal with a dot between
/// each two, and nothing else is.
pub proof fn law_dotted_quad_is_four_octets(text: Seq<char>)
    ensures
        is_dotted_quad(text) <==> exists|a: nat, b: nat, c: nat, d: nat|
            a <= 255 && b <= 255 && c <= 255 && d <= 255 && text == #[trigger] quad_text(
                a,
                b,
                c,
                d,
            ),
{
    if is_dotted_quad(text) {
        let (i, j, k) = choose|i: int, j: int, k: int| #[trigger]
            splits_into_octets(text, i, j, k);
        lemma_split_gives_quad(text, i, j, k);
    }
    if exists|a: nat, b: nat, c: nat, d: nat|
        a <= 255 && b <= 255 && c <= 255 && d <= 255 && text == #[trigger] quad_text(a, b, c, d) {
        let (a, b, c, d) = choose|a: nat, b: nat, c: nat, d: nat|
            a <= 255 && b <= 255 && c <= 255 && d <= 255 && text == #[trigger] quad_text(
                a,
                b,
                c,
                d,
            );
        lemma_quad_splits(a, b, c, d);
    }
}

/// Whether `ip` is an IPv4 address in dotted-quad notation: four decimal
/// numbers up to 255, none with a superfluous zero in front, with a dot
/// between each two.
pub fn is_valid_ipv4(ip: &str) -> (valid: bool)
    ensures
        valid == is_dotted_quad(ip@),
        valid <==> exists|a: nat, b: nat, c: nat, d: nat|
            a <= 255 && b <= 255 && c <= 255 && d <= 255 && ip@ == #[trigger] quad_text(
                a,
                b,
                c,
                d,
            ),
{
    proof {
        law_dotted_quad_is_four_octets(ip@);
    }
    scan_ipv4(ip)
}

} // verus!
