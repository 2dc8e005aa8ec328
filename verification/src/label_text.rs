//! Short pieces of text for the display, held in a fixed-capacity buffer, and
//! the rendering of a reading with one decimal place.

use vstd::prelude::*;
use vstd::utf8::{encode_utf8, is_ascii_chars, is_ascii_chars_encode_utf8};

verus! {

/// Bytes a label can hold.
pub const LABEL_CAPACITY: usize = 32;

/// A piece of text of at most `LABEL_CAPACITY` bytes, stored inline in a
/// `heapless::String`. The verifier does not look inside; `label_chars`
/// names what it holds, and the functions below that call into `heapless`
/// state what those calls do to it.
#[verifier::external_body]
#[derive(Debug)]
pub struct LabelText {
    buffer: heapless::String<heapless::consts::U32>,
}

/// The characters a label holds, first to last.
pub uninterp spec fn label_chars(text: LabelText) -> Seq<char>;

impl View for LabelText {
    type V = Seq<char>;

    open spec fn view(&self) -> Seq<char> {
        label_chars(*self)
    }
}

/// `heapless::String::new`: a buffer that holds no character.
#[verifier::external_body]
fn empty_buffer() -> (text: LabelText)
    ensures
        label_chars(text) == Seq::<char>::empty(),
{
    LabelText { buffer: heapless::String::new() }
}

/// `heapless::String::push`: appends `c` where its UTF-8 encoding still fits
/// beside the bytes already held, and otherwise leaves the buffer as it was.
/// The result tells which of the two happened.
#[verifier::external_body]
fn push_char(text: &mut LabelText, c: char) -> (pushed: bool)
    ensures
        pushed <==> encode_utf8(label_chars(*old(text))).len() + encode_utf8(seq![c]).len()
            <= LABEL_CAPACITY,
        pushed ==> label_chars(*final(text)) == label_chars(*old(text)).push(c),
        !pushed ==> label_chars(*final(text)) == label_chars(*old(text)),
{
    text.buffer.push(c).is_ok()
}

/// `heapless::String::push_str`: appends all of `s` where its bytes still fit
/// beside the bytes already held, and otherwise leaves the buffer as it was.
/// The result tells which of the two happened.
#[verifier::external_body]
fn push_slice(text: &mut LabelText, s: &str) -> (pushed: bool)
    ensures
        pushed <==> encode_utf8(label_chars(*old(text))).len() + encode_utf8(s@).len()
            <= LABEL_CAPACITY,
        pushed ==> label_chars(*final(text)) == label_chars(*old(text)) + s@,
        !pushed ==> label_chars(*final(text)) == label_chars(*old(text)),
{
    text.buffer.push_str(s).is_ok()
}

/// `str::len` on the buffer's contents: the number of bytes held.
#[verifier::external_body]
fn byte_len(text: &LabelText) -> (len: usize)
    ensures
        len == encode_utf8(label_chars(*text)).len(),
{
    text.buffer.len()
}

/// `heapless::String::as_str`: the contents as a string slice.
#[verifier::external_body]
fn contents(text: &LabelText) -> (s: &str)
    ensures
        s@ == label_chars(*text),
{
    text.buffer.as_str()
}

/// The character for a decimal digit.
pub open spec fn digit_char(digit: int) -> char
    recommends
        0 <= digit < 10,
{
    (0x30 + digit) as char
}

/// Decimal digits of `n`, most significant first, without leading zeros.
pub open spec fn decimal_digits(n: nat) -> Seq<char>
    decreases n,
{
    if n < 10 {
        seq![digit_char(n as int)]
    } else {
        decimal_digits(n / 10).push(digit_char((n % 10) as int))
    }
}

/// Absolute value.
pub open spec fn magnitude(v: int) -> nat {
    if v < 0 {
        (-v) as nat
    } else {
        v as nat
    }
}

/// A count of tenths written as a decimal number with one decimal place:
/// a minus sign where it is negative, the whole part, a point, one digit.
pub open spec fn tenths_text(tenths: int) -> Seq<char> {
    let m = magnitude(tenths);
    let body = decimal_digits(m / 10).push('.').push(digit_char((m % 10) as int));
    if tenths < 0 {
        seq!['-'] + body
    } else {
        body
    }
}

/// Whether `n` is below ten to the `places`.
spec fn below_power_of_ten(n: nat, places: nat) -> bool
    decreases places,
{
    if places == 0 {
        false
    } else if n < 10 {
        true
    } else {
        below_power_of_ten(n / 10, (places - 1) as nat)
    }
}

proof fn lemma_digit_count(n: nat, places: nat)
    requires
        below_power_of_ten(n, places),
    ensures
        1 <= decimal_digits(n).len() <= places,
        is_ascii_chars(decimal_digits(n)),
    decreases places,
{
    if n >= 10 {
        lemma_digit_count(n / 10, (places - 1) as nat);
    }
}

proof fn lemma_one_byte(c: char)
    requires
        c <= '\u{7f}',
    ensures
        encode_utf8(seq![c]).len() == 1,
{
    assert(is_ascii_chars(seq![c]));
    is_ascii_chars_encode_utf8(seq![c]);
}

impl LabelText {
    /// A label without text.
    pub fn new() -> (text: LabelText)
        ensures
            text@ == Seq::<char>::empty(),
    {
        empty_buffer()
    }

    /// The label reading `s`, or `None` where `s` is longer than a label.
    pub fn from_str(s: &str) -> (text: Option<LabelText>)
        ensures
            text is Some <==> encode_utf8(s@).len() <= LABEL_CAPACITY,
            text matches Some(t) ==> t@ == s@,
    {
        let mut text = empty_buffer();
        proof {
            assert(encode_utf8(Seq::<char>::empty()).len() == 0) by {
                assert(is_ascii_chars(Seq::<char>::empty()));
                is_ascii_chars_encode_utf8(Seq::<char>::empty());
            }
        }
        if push_slice(&mut text, s) {
            assert(text@ == s@);
            Some(text)
        } else {
            None
        }
    }

    /// Number of bytes of text.
    pub fn len(&self) -> (len: usize)
        ensures
            len == encode_utf8(self@).len(),
            is_ascii_chars(self@) ==> len == self@.len(),
    {
        proof {
            if is_ascii_chars(self@) {
                is_ascii_chars_encode_utf8(self@);
            }
        }
        byte_len(self)
    }

    /// The text as a string slice.
    pub fn as_str(&self) -> (s: &str)
        ensures
            s@ == self@,
    {
        contents(self)
    }

    /// Appends the decimal digits of `n`.
    fn push_digits(&mut self, n: u32)
        requires
            is_ascii_chars(old(self)@),
            old(self)@.len() + decimal_digits(n as nat).len() <= LABEL_CAPACITY,
        ensures
            final(self)@ == old(self)@ + decimal_digits(n as nat),
            is_ascii_chars(final(self)@),
        decreases n,
    {
        if n >= 10 {
            self.push_digits(n / 10);
        }
        let digit: u8 = (n % 10) as u8;
        let c: char = (0x30u8 + digit) as char;
        proof {
            is_ascii_chars_encode_utf8(self@);
            lemma_one_byte(c);
        }
        let pushed = push_char(self, c);
        assert(pushed);
        assert(c == digit_char((n % 10) as int));
    }

    /// Renders a count of tenths with one decimal place, as in `23.5` or
    /// `-0.4`.
    pub fn from_tenths(tenths: i32) -> (text: LabelText)
        ensures
            text@ == tenths_text(tenths as int),
            is_ascii_chars(text@),
            3 <= text@.len() <= 12,
    {
        let mut text = empty_buffer();
        let m: u32 = if tenths < 0 {
            (-(tenths as i64)) as u32
        } else {
            tenths as u32
        };
        assert(m == magnitude(tenths as int));
        proof {
            assert(is_ascii_chars(text@));
            is_ascii_chars_encode_utf8(text@);
            lemma_one_byte('-');
            lemma_one_byte('.');
        }
        if tenths < 0 {
            let pushed = push_char(&mut text, '-');
            assert(pushed);
        }
        assert(below_power_of_ten((m / 10) as nat, 9)) by {
            reveal_with_fuel(below_power_of_ten, 10);
        }
        proof {
            lemma_digit_count((m / 10) as nat, 9);
        }
        text.push_digits(m / 10);
        proof {
            is_ascii_chars_encode_utf8(text@);
        }
        let pushed = push_char(&mut text, '.');
        assert(pushed);
        let digit: u8 = (m % 10) as u8;
        let c: char = (0x30u8 + digit) as char;
        proof {
            is_ascii_chars_encode_utf8(text@);
            lemma_one_byte(c);
        }
        let pushed = push_char(&mut text, c);
        assert(pushed);
        assert(c == digit_char((m % 10) as int));
        assert(text@ == tenths_text(tenths as int));
        text
    }
}

} // verus!
