//! Numbers written in decimal.
use vstd::prelude::*;

verus! {

/// The character of a digit below ten.
pub open spec fn digit(d: nat) -> char {
    (48 + d) as char
}

/// The value of a digit character.
pub open spec fn digit_value(c: char) -> nat {
    (c as int - 48) as nat
}

/// Whether `c` is one of `0` to `9`.
pub open spec fn is_digit(c: char) -> bool {
    '0' <= c <= '9'
}

/// Whether `s` holds digits only.
pub open spec fn all_digits(s: Seq<char>) -> bool {
    forall|i: int| 0 <= i < s.len() ==> is_digit(#[trigger] s[i])
}

/// `n` in decimal, without leading zeros.
pub open spec fn decimal(n: nat) -> Seq<char>
    decreases n,
{
    if n < 10 {
        seq![digit(n)]
    } else {
        decimal(n / 10).push(digit(n % 10))
    }
}

/// The number that a sequence of digits stands for.
pub open spec fn decimal_value(s: Seq<char>) -> nat
    decreases s.len(),
{
    if s.len() == 0 {
        0
    } else {
        decimal_value(s.drop_last()) * 10 + digit_value(s.last())
    }
}

/// The digits of `s` behind an optional plus sign.
pub open spec fn without_plus(s: Seq<char>) -> Seq<char> {
    if s.len() > 0 && s[0] == '+' {
        s.skip(1)
    } else {
        s
    }
}

/// The number that `s` writes: digits, at least one, behind an optional plus sign,
/// with a value that fits 64 bits.
pub open spec fn parsed_u64(s: Seq<char>) -> Option<u64> {
    let t = without_plus(s);
    if t.len() > 0 && all_digits(t) && decimal_value(t) <= u64::MAX {
        Some(decimal_value(t) as u64)
    } else {
        None
    }
}

/// The decimal form of a number is made of digits, at least one, and stands for the number.
pub proof fn decimal_digits(n: nat)
    ensures
        decimal(n).len() > 0,
        all_digits(decimal(n)),
        decimal_value(decimal(n)) == n,
    decreases n,
{
    if n < 10 {
        assert(decimal(n).drop_last() =~= Seq::<char>::empty());
        assert(decimal_value(Seq::<char>::empty()) == 0);
    } else {
        decimal_digits(n / 10);
        assert(decimal(n).drop_last() =~= decimal(n / 10));
    }
}

/// Reading a number back from its decimal form gives the number.
pub proof fn parsed_decimal(n: u64)
    ensures
        parsed_u64(decimal(n as nat)) == Some(n),
{
    decimal_digits(n as nat);
    assert(is_digit(decimal(n as nat)[0]));
}

/// Different numbers have different decimal forms.
pub proof fn decimal_injective(a: nat, b: nat)
    ensures
        decimal(a) == decimal(b) ==> a == b,
{
    decimal_digits(a);
    decimal_digits(b);
}

/// A number below `10^5` has at most five digits.
pub proof fn decimal_length(n: nat)
    requires
        n < 100000,
    ensures
        decimal(n).len() <= 5,
{
    reveal_with_fuel(decimal, 6);
}

/// A prefix of a sequence of digits stands for no more than the whole.
proof fn prefix_value(s: Seq<char>, i: int)
    requires
        0 <= i <= s.len(),
    ensures
        decimal_value(s.take(i)) <= decimal_value(s),
    decreases s.len() - i,
{
    if i < s.len() {
        prefix_value(s, i + 1);
        assert(s.take(i + 1).drop_last() =~= s.take(i));
    } else {
        assert(s.take(i) =~= s);
    }
}

/// One digit more multiplies the value by ten and adds the digit.
proof fn value_step(s: Seq<char>, i: int)
    requires
        0 <= i < s.len(),
        all_digits(s),
    ensures
        decimal_value(s.take(i + 1)) == decimal_value(s.take(i)) * 10 + digit_value(s[i]),
        decimal_value(s.take(i + 1)) <= decimal_value(s),
        digit_value(s[i]) <= 9,
        s[i] as int == 48 + digit_value(s[i]),
{
    assert(is_digit(s[i]));
    assert(s.take(i + 1).drop_last() =~= s.take(i));
    prefix_value(s, i + 1);
}

/// The number in decimal.
pub fn decimal_text(n: u64) -> (r: String)
    ensures
        r@ == decimal(n as nat),
    decreases n,
{
    let mut s = if n < 10 {
        String::new()
    } else {
        decimal_text(n / 10)
    };
    let c: char = (48 + (n % 10) as u8) as char;
    proof {
        if n < 10 {
            assert(Seq::<char>::empty().push(c) =~= decimal(n as nat));
        }
    }
    s.push(c);
    s
}

/// Whether `c` is one of `0` to `9`.
pub fn is_ascii_digit(c: char) -> (r: bool)
    ensures
        r == is_digit(c),
{
    '0' <= c && c <= '9'
}

/// Whether the text holds digits only, from position `from` on.
pub fn all_digits_from(chars: &Vec<char>, from: usize) -> (r: bool)
    requires
        from <= chars@.len(),
    ensures
        r == all_digits(chars@.skip(from as int)),
{
    let mut i: usize = from;
    while i < chars.len()
        invariant
            from <= i <= chars@.len(),
            forall|k: int| from <= k < i ==> is_digit(#[trigger] chars@[k]),
        decreases chars@.len() - i,
    {
        if !is_ascii_digit(chars[i]) {
            proof {
                assert(!is_digit(chars@.skip(from as int)[i - from]));
            }
            return false;
        }
        i += 1;
    }
    true
}

/// The number that a text writes, if it is one that fits 64 bits.
pub fn parse_u64(chars: &Vec<char>) -> (r: Option<u64>)
    ensures
        r == parsed_u64(chars@),
{
    let from: usize = if chars.len() > 0 && chars[0] == '+' { 1 } else { 0 };
    let ghost t = without_plus(chars@);
    proof {
        assert(t =~= chars@.skip(from as int));
    }
    if chars.len() == from || !all_digits_from(chars, from) {
        return None;
    }
    let mut value: u64 = 0;
    let mut i: usize = from;
    proof {
        assert(t.take(0) =~= Seq::<char>::empty());
    }
    while i < chars.len()
        invariant
            from <= i <= chars@.len(),
            t == chars@.skip(from as int),
            t == without_plus(chars@),
            t.len() > 0,
            all_digits(t),
            value == decimal_value(t.take(i - from)),
        decreases chars@.len() - i,
    {
        proof {
            assert(t[i - from] == chars@[i as int]);
            value_step(t, i - from);
        }
        let d: u64 = (chars[i] as u32 - 48) as u64;
        if value > (u64::MAX - d) / 10 {
            return None;
        }
        value = value * 10 + d;
        i += 1;
    }
    proof {
        assert(t.take(i - from) =~= t);
    }
    Some(value)
}

/// One more digit stands behind the others; a number above zero begins with another digit than
/// zero.
pub proof fn decimal_appends_digit(n: nat, d: nat)
    requires
        d < 10,
    ensures
        n > 0 ==> decimal(10 * n + d) == decimal(n).push((48 + d) as char),
        decimal(d) == seq![(48 + d) as char],
        n > 0 ==> decimal(n)[0] != '0',
    decreases n,
{
    if n > 0 {
        assert((10 * n + d) / 10 == n);
        assert((10 * n + d) % 10 == d);
        if n >= 10 {
            decimal_appends_digit(n / 10, n % 10);
            decimal_digits(n / 10);
        }
    }
}

/// The digits are the characters with the codes 48 to 57.
pub proof fn digits_are_ascii(c: char)
    ensures
        is_digit(c) <==> 48 <= c as int <= 57,
        forall|r: bool|
            call_ensures(is_ascii_digit, (c,), r) ==> r == (48 <= c as int <= 57),
{
}

/// The written form of a number is read as the number, and written numbers are told apart.
pub proof fn written_number_is_read(n: u64, text: String, chars: Vec<char>, r: Option<u64>)
    requires
        call_ensures(decimal_text, (n,), text),
        chars@ == text@ || chars@ == seq!['+'] + text@ || chars@ == seq!['0'] + text@,
        call_ensures(parse_u64, (&chars,), r),
    ensures
        r == Some(n),
        text@.len() > 0,
        forall|i: int| 0 <= i < text@.len() ==> 48 <= (#[trigger] text@[i]) as int <= 57,
        forall|m: u64, other: String|
            m != n && #[trigger] call_ensures(decimal_text, (m,), other) ==> other@ != text@,
{
    decimal_digits(n as nat);
    parsed_decimal(n);
    assert(is_digit(text@[0]));
    assert forall|i: int| 0 <= i < text@.len() implies 48 <= (#[trigger] text@[i]) as int <= 57 by {
        assert(is_digit(text@[i]));
    }
    assert forall|m: u64, other: String|
        m != n && #[trigger] call_ensures(decimal_text, (m,), other) implies other@ != text@ by {
        decimal_injective(m as nat, n as nat);
    }
    if chars@ == seq!['+'] + text@ {
        assert(chars@.skip(1) =~= text@);
    }
    if chars@ == seq!['0'] + text@ {
        zero_in_front(text@);
        assert(all_digits(chars@)) by {
            assert forall|i: int| 0 <= i < chars@.len() implies is_digit(#[trigger] chars@[i]) by {
                if i > 0 {
                    assert(is_digit(text@[i - 1]));
                }
            }
        }
    }
}

/// A zero in front does not change what digits stand for.
proof fn zero_in_front(s: Seq<char>)
    ensures
        decimal_value(seq!['0'] + s) == decimal_value(s),
    decreases s.len(),
{
    let t = seq!['0'] + s;
    if s.len() == 0 {
        assert(t.drop_last() =~= Seq::<char>::empty());
        assert(decimal_value(Seq::<char>::empty()) == 0);
        assert(t.last() == '0');
        assert(digit_value('0') == 0);
    } else {
        assert(t.drop_last() =~= seq!['0'] + s.drop_last());
        zero_in_front(s.drop_last());
    }
}

/// What holds anything but digits, behind a plus sign or not, is no number; nor is nothing.
pub proof fn other_texts_are_no_numbers(chars: Vec<char>, i: int, r: Option<u64>)
    requires
        call_ensures(parse_u64, (&chars,), r),
        chars@.len() == 0 || chars@ == seq!['+'] || (0 <= i < chars@.len() && !(48
            <= chars@[i] as int <= 57) && (i > 0 || chars@[0] != '+')),
    ensures
        r is None,
{
    if chars@ == seq!['+'] {
        assert(chars@.skip(1).len() == 0);
    } else if chars@.len() > 0 {
        let t = without_plus(chars@);
        if chars@[0] == '+' {
            assert(t[i - 1] == chars@[i]);
            assert(!is_digit(t[i - 1]));
        } else {
            assert(!is_digit(t[i]));
        }
    }
}

/// One digit is read as its value. One more digit behind others multiplies what they are read
/// as by ten and adds its value; a number that does not fit 64 bits is not read.
pub proof fn one_more_digit_is_read(
    digits: Vec<char>,
    c: char,
    longer: Vec<char>,
    r: Option<u64>,
    s: Option<u64>,
)
    requires
        48 <= c as int <= 57,
        forall|i: int| 0 <= i < digits@.len() ==> 48 <= (#[trigger] digits@[i]) as int <= 57,
        longer@ == digits@.push(c),
        call_ensures(parse_u64, (&digits,), r),
        call_ensures(parse_u64, (&longer,), s),
    ensures
        digits@.len() == 0 ==> s is Some && s->0 == c as int - 48,
        digits@.len() > 0 && r is None ==> s is None,
        digits@.len() > 0 && r is Some ==> if r->0 * 10 + (c as int - 48) <= u64::MAX {
            s is Some && s->0 == r->0 * 10 + (c as int - 48)
        } else {
            s is None
        },
{
    assert(all_digits(digits@)) by {
        assert forall|i: int| 0 <= i < digits@.len() implies is_digit(#[trigger] digits@[i]) by {
            assert(48 <= digits@[i] as int <= 57);
        }
    }
    assert(all_digits(longer@)) by {
        assert forall|i: int| 0 <= i < longer@.len() implies is_digit(#[trigger] longer@[i]) by {
            if i < digits@.len() {
                assert(is_digit(digits@[i]));
            }
        }
    }
    assert(longer@.drop_last() =~= digits@);
    assert(longer@.last() == c);
    if digits@.len() == 0 {
        assert(longer@[0] == c);
        assert(decimal_value(digits@) == 0);
    } else {
        assert(is_digit(digits@[0]));
        assert(longer@[0] == digits@[0]);
    }
}

/// Digits are looked for from the given place on.
pub proof fn digits_are_looked_for(chars: Vec<char>, from: usize, r: bool)
    requires
        from <= chars@.len(),
        call_ensures(all_digits_from, (&chars, from), r),
    ensures
        r <==> forall|i: int|
            from <= i < chars@.len() ==> 48 <= (#[trigger] chars@[i]) as int <= 57,
{
    let rest = chars@.skip(from as int);
    if r {
        assert forall|i: int| from <= i < chars@.len() implies 48 <= (#[trigger] chars@[i]) as int
            <= 57 by {
            assert(is_digit(rest[i - from]));
        }
    }
    if forall|i: int| from <= i < chars@.len() ==> 48 <= (#[trigger] chars@[i]) as int <= 57 {
        assert forall|i: int| 0 <= i < rest.len() implies is_digit(#[trigger] rest[i]) by {
            assert(48 <= chars@[i + from] as int <= 57);
        }
    }
}

} // verus!
