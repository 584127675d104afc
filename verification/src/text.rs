//! Gauge value text, held in a fixed-capacity `heapless::String<16>`.

use vstd::prelude::*;

verus! {

/// Capacity, in bytes, of a gauge text.
pub const TEXT_CAPACITY: usize = 16;

/// What a gauge shows in place of a value that is missing or too old.
pub const EMPTY_VALUE: &'static str = "---";

#[verifier::external_type_specification]
#[verifier::external_body]
pub struct ExCapacityError(heapless::CapacityError);

/// A gauge value text, held in a `heapless::String<16>` of at most 16 bytes;
/// its characters are `text_chars`.
#[verifier::external_body]
pub struct GaugeText {
    inner: heapless::String<16>,
}

/// The characters that a gauge text holds.
pub uninterp spec fn text_chars(t: GaugeText) -> Seq<char>;

impl View for GaugeText {
    type V = Seq<char>;

    open spec fn view(&self) -> Seq<char> {
        text_chars(*self)
    }
}

/// Number of bytes that UTF-8 takes for `c`.
pub open spec fn char_utf8_len(c: char) -> nat {
    if (c as u32) < 0x80 {
        1
    } else if (c as u32) < 0x800 {
        2
    } else if (c as u32) < 0x10000 {
        3
    } else {
        4
    }
}

/// Number of bytes that UTF-8 takes for the characters `s`.
pub open spec fn utf8_len(s: Seq<char>) -> nat
    decreases s.len(),
{
    if s.len() == 0 {
        0
    } else {
        utf8_len(s.drop_last()) + char_utf8_len(s.last())
    }
}

/// `heapless::String::new`: an empty string.
#[verifier::external_body]
fn text_new() -> (res: GaugeText)
    ensures
        text_chars(res) == Seq::<char>::empty(),
{
    GaugeText { inner: heapless::String::new() }
}

/// `heapless::String::push`: appends `c` when its UTF-8 bytes still fit in the
/// capacity, and otherwise fails and leaves the string as it was.
#[verifier::external_body]
fn text_push(t: &mut GaugeText, c: char) -> (res: Result<(), heapless::CapacityError>)
    ensures
        res is Ok <==> utf8_len(text_chars(*old(t))) + char_utf8_len(c) <= TEXT_CAPACITY,
        res is Ok ==> text_chars(*final(t)) == text_chars(*old(t)).push(c),
        res is Err ==> text_chars(*final(t)) == text_chars(*old(t)),
{
    t.inner.push(c)
}

/// `heapless::String::try_from(&str)`: a copy of `s` when its UTF-8 bytes fit in
/// the capacity, and an error otherwise.
#[verifier::external_body]
fn text_try_from(s: &str) -> (res: Result<GaugeText, heapless::CapacityError>)
    ensures
        res is Ok <==> utf8_len(s@) <= TEXT_CAPACITY,
        res matches Ok(t) ==> text_chars(t) == s@,
{
    match heapless::String::try_from(s) {
        Ok(inner) => Ok(GaugeText { inner }),
        Err(e) => Err(e),
    }
}

impl GaugeText {
    /// `heapless::String::as_str`: the characters of the text as a string slice.
    #[verifier::external_body]
    pub fn as_str(&self) -> (s: &str)
        ensures
            s@ == text_chars(*self),
    {
        self.inner.as_str()
    }
}

/// The character of the decimal digit `d`.
pub open spec fn digit_char(d: nat) -> char {
    ((48 + d) as u32) as char
}

/// Decimal representation of `n`, without leading zeros, as `u16`'s `Display` writes it.
pub open spec fn decimal_chars(n: nat) -> Seq<char>
    decreases n,
{
    if n < 10 {
        seq![digit_char(n)]
    } else {
        decimal_chars(n / 10).push(digit_char(n % 10))
    }
}

/// The number that a sequence of decimal digit characters denotes.
pub open spec fn decimal_value(s: Seq<char>) -> int
    decreases s.len(),
{
    if s.len() == 0 {
        0
    } else {
        decimal_value(s.drop_last()) * 10 + ((s.last() as u32) - 48)
    }
}

/// Whether every character of `s` is a decimal digit.
pub open spec fn all_digits(s: Seq<char>) -> bool {
    forall|i: int| 0 <= i < s.len() ==> 48 <= #[trigger] (s[i] as u32) <= 57
}

/// The digit character of `d` is the code point `48 + d`.
proof fn lemma_digit_char(d: nat)
    requires
        d < 10,
    ensures
        (digit_char(d) as u32) == 48 + d,
        char_utf8_len(digit_char(d)) == 1,
{
}

/// Decimal text is made of digits, is no longer than the number needs, and
/// takes one UTF-8 byte per digit.
pub proof fn lemma_decimal_shape(n: nat)
    ensures
        all_digits(decimal_chars(n)),
        decimal_chars(n).len() >= 1,
        n < 10 ==> decimal_chars(n).len() == 1,
        n < 100 ==> decimal_chars(n).len() <= 2,
        n < 1000 ==> decimal_chars(n).len() <= 3,
        n < 10000 ==> decimal_chars(n).len() <= 4,
        n < 100000 ==> decimal_chars(n).len() <= 5,
        utf8_len(decimal_chars(n)) == decimal_chars(n).len(),
    decreases n,
{
    if n >= 10 {
        let d = n % 10;
        lemma_decimal_shape(n / 10);
        lemma_digit_char(d);
        let s = decimal_chars(n / 10).push(digit_char(d));
        assert(decimal_chars(n) == s);
        lemma_utf8_len_push(decimal_chars(n / 10), digit_char(d));
        assert forall|i: int| 0 <= i < s.len() implies 48 <= #[trigger] (s[i] as u32) <= 57 by {
            if i < s.len() - 1 {
                assert(s[i] == decimal_chars(n / 10)[i]);
            }
        }
    } else {
        lemma_digit_char(n);
        let s = seq![digit_char(n)];
        assert(decimal_chars(n) == s);
        assert(s.drop_last() =~= Seq::<char>::empty());
        assert(utf8_len(Seq::<char>::empty()) == 0);
        assert(utf8_len(s) == 1);
    }
}

/// Reading the decimal text of `n` back gives `n`.
pub proof fn lemma_decimal_round_trip(n: nat)
    ensures
        decimal_value(decimal_chars(n)) == n,
    decreases n,
{
    let d = n % 10;
    lemma_digit_char(d);
    if n >= 10 {
        lemma_decimal_round_trip(n / 10);
        let s = decimal_chars(n / 10).push(digit_char(d));
        assert(decimal_chars(n) == s);
        assert(s.drop_last() =~= decimal_chars(n / 10));
        assert(s.last() == digit_char(d));
        assert(decimal_value(s) == decimal_value(decimal_chars(n / 10)) * 10 + d);
        assert(n == (n / 10) * 10 + d);
    } else {
        let s = seq![digit_char(n)];
        assert(decimal_chars(n) == s);
        assert(s.drop_last() =~= Seq::<char>::empty());
        assert(decimal_value(Seq::<char>::empty()) == 0);
        assert(decimal_value(s) == n);
    }
}

/// A decimal text starts with a zero only when it is the number zero itself.
pub proof fn lemma_decimal_no_leading_zero(n: nat)
    ensures
        decimal_chars(n)[0] == '0' <==> n == 0,
    decreases n,
{
    lemma_decimal_shape(n);
    if n >= 10 {
        lemma_decimal_no_leading_zero(n / 10);
        lemma_decimal_shape(n / 10);
        let s = decimal_chars(n / 10).push(digit_char(n % 10));
        assert(decimal_chars(n) == s);
        assert(s[0] == decimal_chars(n / 10)[0]);
    } else {
        lemma_digit_char(n);
        assert(decimal_chars(n) == seq![digit_char(n)]);
        assert(('0' as u32) == 48);
    }
}

/// The decimal text of `n` is the numeral of `n`: only digits, at least one,
/// no leading zero unless `n` is zero, and it reads back as `n`.
pub proof fn lemma_decimal_is_numeral(n: nat)
    ensures
        all_digits(decimal_chars(n)),
        decimal_chars(n).len() >= 1,
        decimal_value(decimal_chars(n)) == n,
        decimal_chars(n).len() > 1 ==> decimal_chars(n)[0] != '0',
        n == 0 ==> decimal_chars(n) == seq!['0'],
{
    lemma_decimal_shape(n);
    lemma_decimal_round_trip(n);
    lemma_decimal_no_leading_zero(n);
    if n == 0 {
        lemma_digit_char(0);
        assert(decimal_chars(0) == seq![digit_char(0)]);
        assert(('0' as u32) == 48);
        assert(digit_char(0) == '0');
    } else if decimal_chars(n).len() > 1 {
        assert(n >= 10);
    }
}

/// Appending a character adds its UTF-8 length.
proof fn lemma_utf8_len_push(s: Seq<char>, c: char)
    ensures
        utf8_len(s.push(c)) == utf8_len(s) + char_utf8_len(c),
{
    assert(s.push(c).drop_last() =~= s);
}

/// The UTF-8 length of a concatenation is the sum of the lengths.
proof fn lemma_utf8_len_concat(a: Seq<char>, b: Seq<char>)
    ensures
        utf8_len(a + b) == utf8_len(a) + utf8_len(b),
    decreases b.len(),
{
    if b.len() == 0 {
        assert(a + b =~= a);
    } else {
        lemma_utf8_len_concat(a, b.drop_last());
        assert((a + b).drop_last() =~= a + b.drop_last());
    }
}

/// Appends the decimal representation of `n` to `t`.
fn push_decimal(t: &mut GaugeText, n: u16)
    requires
        utf8_len(old(t)@) + decimal_chars(n as nat).len() <= TEXT_CAPACITY,
    ensures
        final(t)@ == old(t)@ + decimal_chars(n as nat),
    decreases n,
{
    proof {
        lemma_decimal_shape(n as nat);
    }
    if n >= 10 {
        proof {
            lemma_decimal_shape((n / 10) as nat);
            assert(decimal_chars(n as nat) == decimal_chars((n / 10) as nat).push(digit_char((n % 10) as nat)));
        }
        push_decimal(t, n / 10);
        proof {
            lemma_utf8_len_concat(old(t)@, decimal_chars((n / 10) as nat));
        }
    }
    let c = digit(n % 10);
    proof {
        lemma_digit_char((n % 10) as nat);
    }
    let r = text_push(t, c);
    assert(r is Ok);
    assert(t@ =~= old(t)@ + decimal_chars(n as nat));
}

/// The text shown for a gauge value that is available: the value in decimal.
pub fn value_text(value: u16) -> (res: GaugeText)
    ensures
        res@ == decimal_chars(value as nat),
        all_digits(res@),
        1 <= res@.len() <= 5,
        decimal_value(res@) == value,
        res@.len() > 1 ==> res@[0] != '0',
{
    proof {
        lemma_decimal_is_numeral(value as nat);
    }
    let mut t = text_new();
    proof {
        lemma_decimal_shape(value as nat);
        assert(utf8_len(t@) == 0);
        assert(Seq::<char>::empty() + decimal_chars(value as nat) =~= decimal_chars(value as nat));
    }
    push_decimal(&mut t, value);
    t
}

/// The text shown for a gauge value that is missing or too old.
pub fn empty_value_text() -> (res: GaugeText)
    ensures
        res@ == EMPTY_VALUE@,
        res@ == seq!['-', '-', '-'],
{
    proof {
        reveal_strlit("---");
        let s = EMPTY_VALUE@;
        assert(s.drop_last().drop_last().drop_last() =~= Seq::<char>::empty());
        assert(utf8_len(s) == 3) by {
            reveal_with_fuel(utf8_len, 4);
        }
    }
    match text_try_from(EMPTY_VALUE) {
        Ok(t) => t,
        Err(_) => {
            proof {
                assert(false);
            }
            text_new()
        },
    }
}

/// The character of the decimal digit `d`.
fn digit(d: u16) -> (c: char)
    requires
        d < 10,
    ensures
        c == digit_char(d as nat),
{
    match d {
        0 => '0',
        1 => '1',
        2 => '2',
        3 => '3',
        4 => '4',
        5 => '5',
        6 => '6',
        7 => '7',
        8 => '8',
        _ => '9',
    }
}

} // verus!
