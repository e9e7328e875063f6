//! Text helpers: comparing, cutting and joining strings, and decimal numbers.

use vstd::prelude::*;
use vstd::string::*;

verus! {

/// The character of one decimal digit.
pub open spec fn digit(d: nat) -> char {
    if d == 0 {
        '0'
    } else if d == 1 {
        '1'
    } else if d == 2 {
        '2'
    } else if d == 3 {
        '3'
    } else if d == 4 {
        '4'
    } else if d == 5 {
        '5'
    } else if d == 6 {
        '6'
    } else if d == 7 {
        '7'
    } else if d == 8 {
        '8'
    } else {
        '9'
    }
}

/// A natural number written in decimal, without leading zeros.
pub open spec fn decimal(n: nat) -> Seq<char>
    decreases n,
{
    if n < 10 {
        seq![digit(n)]
    } else {
        decimal(n / 10).push(digit(n % 10))
    }
}

/// An integer written in decimal, with a minus sign if it is negative.
pub open spec fn signed_decimal(n: int) -> Seq<char> {
    if n < 0 {
        seq!['-'] + decimal((-n) as nat)
    } else {
        decimal(n as nat)
    }
}

/// `true` or `false`, as Rust and JSON both spell them.
pub open spec fn bool_text(b: bool) -> Seq<char> {
    if b {
        "true"@
    } else {
        "false"@
    }
}

/// The items one after another, with `separator` between neighbours.
pub open spec fn join(items: Seq<Seq<char>>, separator: Seq<char>) -> Seq<char>
    decreases items.len(),
{
    if items.len() == 0 {
        Seq::empty()
    } else if items.len() == 1 {
        items[0]
    } else {
        join(items.drop_last(), separator) + separator + items.last()
    }
}

/// Whether the two texts are the same.
pub fn text_eq(left: &str, right: &str) -> (same: bool)
    ensures
        same == (left@ == right@),
{
    left.to_owned() == right.to_owned()
}

fn digit_text(d: u64) -> (text: &'static str)
    requires
        d < 10,
    ensures
        text@ == seq![digit(d as nat)],
{
    proof {
        reveal_strlit("0");
        reveal_strlit("1");
        reveal_strlit("2");
        reveal_strlit("3");
        reveal_strlit("4");
        reveal_strlit("5");
        reveal_strlit("6");
        reveal_strlit("7");
        reveal_strlit("8");
        reveal_strlit("9");
    }
    let text = match d {
        0 => "0",
        1 => "1",
        2 => "2",
        3 => "3",
        4 => "4",
        5 => "5",
        6 => "6",
        7 => "7",
        8 => "8",
        _ => "9",
    };
    assert(text@ =~= seq![digit(d as nat)]);
    text
}

/// Writes `n` in decimal.
pub fn write_decimal(n: u64) -> (text: String)
    ensures
        text@ == decimal(n as nat),
    decreases n,
{
    if n < 10 {
        digit_text(n).to_owned()
    } else {
        let mut text = write_decimal(n / 10);
        let ghost head = text@;
        text.append(digit_text(n % 10));
        assert(text@ =~= head.push(digit((n % 10) as nat)));
        text
    }
}

/// Writes `n` in decimal, with a minus sign if it is negative.
pub fn write_signed(n: i32) -> (text: String)
    ensures
        text@ == signed_decimal(n as int),
{
    let wide: i64 = n as i64;
    if wide < 0 {
        let mut text = "-".to_owned();
        proof {
            reveal_strlit("-");
            assert(text@ =~= seq!['-']);
        }
        let magnitude = write_decimal((-wide) as u64);
        text.append(magnitude.as_str());
        text
    } else {
        write_decimal(wide as u64)
    }
}

/// Writes `true` or `false`.
pub fn write_bool(b: bool) -> (text: &'static str)
    ensures
        text@ == bool_text(b),
{
    if b {
        "true"
    } else {
        "false"
    }
}

/// The items one after another, with `separator` between neighbours.
pub fn join_texts(items: &Vec<String>, separator: &str) -> (text: String)
    ensures
        text@ == join(items.deep_view(), separator@),
{
    let mut text = String::new();
    let ghost views = items.deep_view();
    assert(views.take(0) =~= Seq::<Seq<char>>::empty());
    for i in 0..items.len()
        invariant
            views == items.deep_view(),
            text@ == join(views.take(i as int), separator@),
    {
        proof {
            assert(views.take(i + 1).drop_last() =~= views.take(i as int));
            assert(views.take(i + 1).last() == items@[i as int]@);
        }
        if i > 0 {
            text.append(separator);
        }
        text.append(items[i].as_str());
        assert(text@ =~= join(views.take(i + 1), separator@));
    }
    assert(views.take(items@.len() as int) =~= views);
    text
}

/// Cuts the text at the first `mark`: what stands before it and what stands
/// behind it, or nothing if there is no `mark`.
pub fn split_once(text: &str, mark: char) -> (parts: Option<(String, String)>)
    ensures
        match parts {
            Some((before, behind)) => {
                &&& text@ == before@ + seq![mark] + behind@
                &&& !before@.contains(mark)
            },
            None => !text@.contains(mark),
        },
{
    let len: usize = text.unicode_len();
    let mut i: usize = 0;
    while i < len
        invariant
            i <= len,
            len == text@.len(),
            forall|j: int| 0 <= j < i ==> text@[j] != mark,
        decreases len - i,
    {
        if text.get_char(i) == mark {
            let before = text.substring_char(0, i).to_owned();
            let behind = text.substring_char(i + 1, len).to_owned();
            assert(text@ =~= before@ + seq![mark] + behind@);
            return Some((before, behind));
        }
        i = i + 1;
    }
    None
}

/// What stands behind `mark`, if the text begins with it.
pub fn strip_mark(text: &str, mark: char) -> (rest: Option<String>)
    ensures
        match rest {
            Some(rest) => text@ == seq![mark] + rest@,
            None => text@.len() == 0 || text@[0] != mark,
        },
{
    let len: usize = text.unicode_len();
    if len > 0 && text.get_char(0) == mark {
        let rest = text.substring_char(1, len).to_owned();
        assert(text@ =~= seq![mark] + rest@);
        Some(rest)
    } else {
        None
    }
}

/// Whether the text ends with `suffix`.
pub fn has_suffix(text: &str, suffix: &str) -> (ends: bool)
    ensures
        ends == suffix@.is_suffix_of(text@),
{
    let len: usize = text.unicode_len();
    let tail: usize = suffix.unicode_len();
    if tail > len {
        false
    } else {
        text_eq(text.substring_char(len - tail, len), suffix)
    }
}

/// The number that a text of decimal digits says.
pub open spec fn number_said(text: Seq<char>) -> int
    decreases text.len(),
{
    if text.len() == 0 {
        0
    } else {
        10 * number_said(text.drop_last()) + (text.last() as int - '0' as int)
    }
}

/// A number in decimal is made of digits alone, says the number when it is read,
/// and begins with a zero only if it is zero.
pub proof fn law_decimals_say_their_number(n: nat)
    ensures
        number_said(decimal(n)) == n,
        decimal(n).len() > 0,
        forall|i: int| 0 <= i < decimal(n).len() ==> '0' <= #[trigger] decimal(n)[i] <= '9',
        decimal(n)[0] == '0' <==> n == 0,
    decreases n,
{
    let text = decimal(n);
    if n >= 10 {
        law_decimals_say_their_number(n / 10);
        assert(text.drop_last() =~= decimal(n / 10));
        assert(text.last() as int - '0' as int == n % 10);
        assert(text[0] == decimal(n / 10)[0]);
    } else {
        assert(text.drop_last() =~= Seq::empty());
        assert(number_said(text.drop_last()) == 0);
        assert(text.last() as int - '0' as int == n);
    }
}

/// A negative number is a minus sign and its magnitude; any other number has no
/// sign.
pub proof fn law_signs_are_shown(n: int)
    ensures
        n < 0 ==> signed_decimal(n)[0] == '-' && number_said(signed_decimal(n).skip(1)) == -n,
        n >= 0 ==> signed_decimal(n)[0] != '-' && number_said(signed_decimal(n)) == n,
{
    if n < 0 {
        law_decimals_say_their_number((-n) as nat);
        assert(signed_decimal(n).skip(1) =~= decimal((-n) as nat));
    } else {
        law_decimals_say_their_number(n as nat);
    }
}

/// Joining nothing gives nothing, joining one text gives that text, and one more
/// text comes behind the others and a separator.
pub proof fn law_joining_one_more(items: Seq<Seq<char>>, item: Seq<char>, separator: Seq<char>)
    ensures
        join(Seq::empty(), separator) == Seq::<char>::empty(),
        items.len() == 0 ==> join(items.push(item), separator) == item,
        items.len() > 0 ==> join(items.push(item), separator) == join(items, separator) + separator
            + item,
{
    assert(items.push(item).drop_last() =~= items);
}

/// A flag is shown as `true` exactly when it is set, and else as `false`.
pub proof fn law_flags_are_shown(flag: bool)
    ensures
        bool_text(flag) == "true"@ <==> flag,
        bool_text(flag) == "false"@ <==> !flag,
{
    reveal_strlit("true");
    reveal_strlit("false");
    assert("true"@.len() == 4);
    assert("false"@.len() == 5);
}

/// Whether a text spells the number: a minus sign if it is negative, and then its
/// magnitude in digits, without leading zeros.
pub open spec fn spells(text: Seq<char>, n: int) -> bool {
    let digits = if n < 0 {
        text.skip(1)
    } else {
        text
    };
    &&& text.len() > 0
    &&& n < 0 ==> text[0] == '-'
    &&& digits.len() > 0
    &&& forall|i: int| 0 <= i < digits.len() ==> '0' <= #[trigger] digits[i] <= '9'
    &&& digits[0] == '0' ==> n == 0 && digits.len() == 1
    &&& number_said(digits) == if n < 0 {
        -n
    } else {
        n
    }
}

/// Numbers are spelled out.
pub proof fn law_numbers_are_spelled(n: int)
    ensures
        spells(signed_decimal(n), n),
        n >= 0 ==> spells(decimal(n as nat), n),
{
    if n < 0 {
        law_decimals_say_their_number((-n) as nat);
        assert(signed_decimal(n).skip(1) =~= decimal((-n) as nat));
    } else {
        law_decimals_say_their_number(n as nat);
    }
}

} // verus!
